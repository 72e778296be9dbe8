use std::cell::{Cell, RefCell};
use std::rc::Rc;

use weechat::buffer::{
    dispatch_buffer_input, release_buffer, Buffer, BufferCloseCallback, BufferInputCallback,
    BufferPointers, BufferRequest,
};
use weechat::hooks::{dispatch_timer, TimerCallback, TimerHookData, TimerRequest};
use weechat::registry::{release_record, Registry, RegistrationError};
use weechat::weechat::Weechat;

#[derive(Default)]
struct Greeting {
    text: String,
    seen: Rc<RefCell<Vec<String>>>,
}

impl BufferInputCallback for Greeting {
    fn buffer_input(&mut self, _buffer: &Buffer, _input: &str) {
        self.seen.borrow_mut().push(self.text.clone());
        self.text.push_str(" world.");
    }
}

#[derive(Default)]
struct CloseCounter {
    closes: Rc<Cell<u32>>,
}

impl BufferCloseCallback for CloseCounter {
    fn buffer_closed(&self, _buffer: &Buffer) {
        self.closes.set(self.closes.get() + 1);
    }
}

#[derive(Default)]
struct Ticks {
    fired: Rc<RefCell<Vec<i32>>>,
}

impl TimerCallback for Ticks {
    fn timer_fired(&self, _weechat: &Weechat, remaining: i32) {
        self.fired.borrow_mut().push(remaining);
    }
}

fn weechat() -> Weechat {
    Weechat::from_ptr(0x1000)
}

#[test]
fn input_handler_sees_payload_changed_by_previous_dispatch() {
    let mut records: Registry<BufferPointers<Greeting, CloseCounter>> = Registry::new();
    let seen = Rc::new(RefCell::new(Vec::new()));
    let payload = Greeting { text: "Hello".to_string(), seen: seen.clone() };
    let mut context = 0usize;
    let buffer = weechat()
        .buffer_new(&mut records, "greeting", Some(payload), None, |req: BufferRequest, t: usize| {
            assert_eq!(req.name.as_bytes(), b"greeting");
            context = t;
            Some(0x2000)
        })
        .ok()
        .unwrap();
    assert_eq!(buffer.ptr(), 0x2000);
    assert_eq!(dispatch_buffer_input(&mut records, context, 0x2000, Some(b"")), 0);
    assert_eq!(dispatch_buffer_input(&mut records, context, 0x2000, Some(b"x")), 0);
    assert_eq!(*seen.borrow(), vec!["Hello".to_string(), "Hello world.".to_string()]);
}

#[test]
fn timer_with_call_limit_is_dispatched_three_times() {
    let mut records: Registry<TimerHookData<Ticks>> = Registry::new();
    let fired = Rc::new(RefCell::new(Vec::new()));
    let mut limit = 0;
    let hook = weechat()
        .hook_timer(&mut records, 1000, 0, 3, Some(Ticks { fired: fired.clone() }), |req: TimerRequest, _t: usize| {
            limit = req.max_calls;
            Some(0x3000)
        })
        .ok()
        .unwrap();
    assert_eq!(limit, 3);
    let token = hook.hook.token();
    // The host fires the timer until its limit, then releases the record.
    let mut remaining = limit;
    while remaining > 0 {
        remaining -= 1;
        assert_eq!(dispatch_timer(&records, token, remaining), 0);
    }
    assert_eq!(release_record(&mut records, token), 0);
    assert_eq!(dispatch_timer(&records, token, -1), -1);
    assert_eq!(*fired.borrow(), vec![2, 1, 0]);
    assert_eq!(Rc::strong_count(&fired), 1);
    assert_eq!(release_record(&mut records, token), -1);
}

#[test]
fn refused_registration_leaves_no_record() {
    let mut records: Registry<TimerHookData<Ticks>> = Registry::new();
    let fired = Rc::new(RefCell::new(Vec::new()));
    let payload = Ticks { fired: fired.clone() };
    let mut context = 0usize;
    let r = weechat().hook_timer(&mut records, 50, 0, 0, Some(payload), |_req: TimerRequest, t: usize| {
        context = t;
        None
    });
    assert!(matches!(r, Err(RegistrationError::HostRefused)));
    assert!(!records.is_live(context));
    // The payload was dropped: this is the only reference left.
    assert_eq!(Rc::strong_count(&fired), 1);
    assert_eq!(dispatch_timer(&records, context, 0), -1);
}

#[test]
fn handle_teardown_unregisters_exactly_once() {
    let mut records: Registry<TimerHookData<Ticks>> = Registry::new();
    let fired = Rc::new(RefCell::new(Vec::new()));
    let unhooks = Rc::new(RefCell::new(Vec::new()));
    {
        let hook = weechat()
            .hook_timer(&mut records, 10, 0, 0, Some(Ticks { fired: fired.clone() }), |_q: TimerRequest, _t: usize| {
                Some(0x4000)
            })
            .ok()
            .unwrap();
        let token = hook.hook.token();
        let log = unhooks.clone();
        assert!(hook.unhook(&mut records, move |p: usize| log.borrow_mut().push(p)));
        assert!(!records.is_live(token));
        assert!(records.reclaim(token).is_none());
    }
    assert_eq!(*unhooks.borrow(), vec![0x4000]);
    assert_eq!(Rc::strong_count(&fired), 1);
}

#[test]
fn teardown_after_host_release_calls_nothing() {
    let mut records: Registry<TimerHookData<Ticks>> = Registry::new();
    let hook = weechat()
        .hook_timer(&mut records, 10, 0, 1, None, |_q: TimerRequest, _t: usize| Some(0x5000))
        .ok()
        .unwrap();
    let token = hook.hook.token();
    assert!(records.reclaim(token).is_some());
    let calls = Rc::new(Cell::new(0u32));
    let c = calls.clone();
    assert!(!hook.unhook(&mut records, move |_p: usize| c.set(c.get() + 1)));
    assert_eq!(calls.get(), 0);
}

#[test]
fn buffer_close_releases_both_payloads_once() {
    let mut records: Registry<BufferPointers<Greeting, CloseCounter>> = Registry::new();
    let closes = Rc::new(Cell::new(0u32));
    let seen = Rc::new(RefCell::new(Vec::new()));
    let mut context = 0usize;
    let _buffer = weechat()
        .buffer_new(
            &mut records,
            "b",
            Some(Greeting { text: String::new(), seen: seen.clone() }),
            Some(CloseCounter { closes: closes.clone() }),
            |_q: BufferRequest, t: usize| {
                context = t;
                Some(0x6000)
            },
        )
        .ok()
        .unwrap();
    assert_eq!(release_buffer(&mut records, context, 0x6000), 0);
    assert_eq!(closes.get(), 1);
    assert_eq!(Rc::strong_count(&closes), 1);
    assert_eq!(Rc::strong_count(&seen), 1);
    // A second release finds nothing to free, and input no longer runs.
    assert_eq!(release_buffer(&mut records, context, 0x6000), -1);
    assert_eq!(closes.get(), 1);
    assert_eq!(dispatch_buffer_input(&mut records, context, 0x6000, Some(b"late")), -1);
    assert!(seen.borrow().is_empty());
}

#[test]
fn missing_input_text_is_an_error_and_runs_nothing() {
    let mut records: Registry<BufferPointers<Greeting, CloseCounter>> = Registry::new();
    let seen = Rc::new(RefCell::new(Vec::new()));
    let mut context = 0usize;
    let _buffer = weechat()
        .buffer_new(&mut records, "b", Some(Greeting { text: "a".to_string(), seen: seen.clone() }), None, |_q: BufferRequest, t: usize| {
            context = t;
            Some(0x7000)
        })
        .ok()
        .unwrap();
    assert_eq!(dispatch_buffer_input(&mut records, context, 0x7000, None), -1);
    assert!(seen.borrow().is_empty());
    assert!(records.is_live(context));
}

#[test]
fn scoped_hook_is_torn_down_on_every_exit_path() {
    let mut records: Registry<TimerHookData<Ticks>> = Registry::new();
    let fired = Rc::new(RefCell::new(Vec::new()));
    let unhooks = Rc::new(Cell::new(0u32));
    for fail in [false, true] {
        let hook = weechat()
            .hook_timer(&mut records, 10, 0, 0, Some(Ticks { fired: fired.clone() }), |_q: TimerRequest, _t: usize| {
                Some(0x8000)
            })
            .ok()
            .unwrap();
        let token = hook.hook.token();
        let count = unhooks.clone();
        let (outcome, called) = hook.hook.scoped(
            &mut records,
            move |_p: usize| count.set(count.get() + 1),
            |reg, h| {
                let status = dispatch_timer(&reg, h.token(), -1);
                let outcome: Result<i32, &str> = if fail { Err("gave up") } else { Ok(status) };
                (reg, outcome)
            },
        );
        assert!(called);
        assert_eq!(outcome.is_err(), fail);
        assert!(!records.is_live(token));
    }
    assert_eq!(unhooks.get(), 2);
    assert_eq!(*fired.borrow(), vec![-1, -1]);
    assert_eq!(Rc::strong_count(&fired), 1);
}
