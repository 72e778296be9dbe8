use std::cell::{Cell, RefCell};
use std::rc::Rc;

use weechat::bar::{dispatch_bar_item, BarItemCallback, BarItemCbData, BarItemRequest, LightBarItem};
use weechat::buffer::{Buffer, NickArgs, NickRequest, GroupRequest};
use weechat::completion::{
    dispatch_completion, Completion, CompletionCallback, CompletionHookData, CompletionRequest, CompletionWord,
};
use weechat::config::{
    dispatch_config_reload, dispatch_option_change, ConfigFreeCall, ConfigPointers, ConfigReloadCallback,
    ConfigRequest, ConfigSectionInfo, OptionChangeCallback, OptionPointers, OptionRequest, SectionRequest,
};
use weechat::config_options::{option_changed_from_host, OptionHandle, OptionType};
use weechat::hooks::{
    dispatch_command, dispatch_command_run, dispatch_fd, dispatch_signal, CommandCallback, CommandDescription,
    CommandHookData, CommandRequest, CommandRunCallback, CommandRunHookData, CommandRunRequest, FdCallback,
    FdHookData, FdHookMode, FdRequest, SignalCallback, SignalData, SignalHookData, SignalHookValue, SignalRequest,
};
use weechat::infolist::InfolistRequest;
use weechat::plugin::{end, init, Error, PluginSlot, WeechatPlugin};
use weechat::registry::{Registry, RegistrationError};
use weechat::status::{OptionChanged, ReturnCode};
use weechat::strings::LossyCString;
use weechat::weechat::{ArgsWeechat, PrintRequest, Weechat};

fn no_free(_p: usize) {
    panic!("no section is replaced here");
}

fn weechat() -> Weechat {
    Weechat::from_ptr(0x1000)
}

#[derive(Default)]
struct CommandLog {
    calls: Rc<RefCell<Vec<Vec<String>>>>,
}

impl CommandCallback for CommandLog {
    fn run_command(&self, _weechat: &Weechat, buffer: &Buffer, mut args: ArgsWeechat) {
        let mut all = vec![format!("{:#x}", buffer.ptr())];
        while let Some(a) = args.next() {
            all.push(a);
        }
        self.calls.borrow_mut().push(all);
    }
}

#[test]
fn command_hook_passes_description_and_arguments() {
    let mut records: Registry<CommandHookData<CommandLog>> = Registry::new();
    let calls = Rc::new(RefCell::new(Vec::new()));
    let info = CommandDescription { name: "greet", description: "says hi", args: "<who>", ..Default::default() };
    let mut context = 0;
    let hook = weechat()
        .hook_command(&mut records, info, Some(CommandLog { calls: calls.clone() }), |q: CommandRequest, t: usize| {
            assert_eq!(q.name.as_bytes(), b"greet");
            assert_eq!(q.description.as_bytes(), b"says hi");
            assert_eq!(q.args.as_bytes(), b"<who>");
            assert_eq!(q.completion.as_bytes(), b"");
            context = t;
            Some(0x10)
        })
        .ok()
        .unwrap();
    assert_eq!(hook.hook.token(), context);
    assert_eq!(dispatch_command(&records, context, 0x20, &[b"/greet".to_vec(), b"bob".to_vec()]), 0);
    assert_eq!(*calls.borrow(), vec![vec!["0x20".to_string(), "/greet".to_string(), "bob".to_string()]]);
    assert_eq!(dispatch_command(&records, context + 1, 0x20, &[]), -1);
    assert_eq!(calls.borrow().len(), 1);
}

#[derive(Default)]
struct Reader;

impl FdCallback<Vec<u8>> for Reader {
    fn fd_ready(&self, fd_object: &mut Vec<u8>) {
        fd_object.push(b'!');
    }
}

#[test]
fn fd_hook_owns_and_changes_its_object() {
    let mut records: Registry<FdHookData<Reader, Vec<u8>>> = Registry::new();
    let mut flags = (9, 9);
    let hook = weechat()
        .hook_fd(&mut records, 7, b"data".to_vec(), FdHookMode::Read, None, |q: FdRequest, _t: usize| {
            assert_eq!(q.fd, 7);
            flags = (q.read, q.write);
            Some(0x30)
        })
        .ok()
        .unwrap();
    assert_eq!(flags, (1, 0));
    let token = hook.hook.token();
    assert_eq!(dispatch_fd(&mut records, token), 0);
    assert_eq!(dispatch_fd(&mut records, token), 0);
    let record = records.reclaim(token).unwrap();
    assert_eq!(record.fd_object, b"data!!".to_vec());
    assert_eq!(dispatch_fd(&mut records, token), -1);
}

#[derive(Default)]
struct Filter;

impl CommandRunCallback for Filter {
    fn command_run(&self, _buffer: &Buffer, command: &str) -> ReturnCode {
        if command.starts_with("/quit") {
            ReturnCode::SuccessEat
        } else {
            ReturnCode::Success
        }
    }
}

#[test]
fn command_run_status_goes_to_host() {
    let mut records: Registry<CommandRunHookData<Filter>> = Registry::new();
    let hook = weechat()
        .hook_command_run(&mut records, "/quit*", None, |q: CommandRunRequest, _t: usize| {
            assert_eq!(q.command.as_bytes(), b"/quit*");
            Some(0x40)
        })
        .ok()
        .unwrap();
    let token = hook.hook.token();
    assert_eq!(dispatch_command_run(&records, token, 1, Some(b"/quit now")), 1);
    assert_eq!(dispatch_command_run(&records, token, 1, Some(b"/help")), 0);
    assert_eq!(dispatch_command_run(&records, token, 1, None), -1);
}

#[derive(Default)]
struct SignalLog {
    values: Rc<RefCell<Vec<String>>>,
}

impl SignalCallback for SignalLog {
    fn signal_received(&self, _weechat: &Weechat, value: SignalHookValue) -> ReturnCode {
        self.values.borrow_mut().push(format!("{:?}", value));
        ReturnCode::SuccessEat
    }
}

#[test]
fn signal_dispatch_reads_typed_values() {
    let mut records: Registry<SignalHookData<SignalLog>> = Registry::new();
    let values = Rc::new(RefCell::new(Vec::new()));
    let hook = weechat()
        .hook_signal(&mut records, "buffer_*", Some(SignalLog { values: values.clone() }), |q: SignalRequest, _t: usize| {
            assert_eq!(q.signal.as_bytes(), b"buffer_*");
            Some(0x50)
        })
        .ok()
        .unwrap();
    let token = hook.hook.token();
    assert_eq!(dispatch_signal(&records, token, b"integer", SignalData::Integer(Some(5))), 1);
    assert_eq!(dispatch_signal(&records, token, b"string", SignalData::Text(b"ab".to_vec())), 1);
    assert_eq!(dispatch_signal(&records, token, b"integer", SignalData::Integer(None)), 0);
    assert_eq!(dispatch_signal(&records, token, b"\xff", SignalData::Pointer(1)), 0);
    assert_eq!(*values.borrow(), vec!["Integer(5)".to_string(), "String(\"ab\")".to_string()]);
    let removed = Rc::new(Cell::new(0usize));
    let r = removed.clone();
    assert!(hook.unhook(&mut records, move |p: usize| r.set(p)));
    assert_eq!(removed.get(), 0x50);
    assert_eq!(dispatch_signal(&records, token, b"integer", SignalData::Integer(Some(5))), -1);
}

#[derive(Default)]
struct Nicks;

impl CompletionCallback for Nicks {
    fn complete(&self, _buffer: &Buffer, item: &str, completion: &Completion) -> ReturnCode {
        assert_eq!(item, "nicks");
        completion.add("alice", |w: CompletionWord| {
            assert_eq!(w.word.as_bytes(), b"alice");
            assert_eq!(w.position.as_bytes(), b"sort");
            assert_eq!(w.is_nick, 0);
        });
        ReturnCode::Success
    }
}

#[test]
fn completion_hook_fills_list() {
    let mut records: Registry<CompletionHookData<Nicks>> = Registry::new();
    let hook = weechat()
        .hook_completion(&mut records, "nicks", "all nicks", None, |q: CompletionRequest, _t: usize| {
            assert_eq!(q.item.as_bytes(), b"nicks");
            assert_eq!(q.description.as_bytes(), b"all nicks");
            Some(0x60)
        })
        .ok()
        .unwrap();
    let token = hook.hook.token();
    assert_eq!(dispatch_completion(&records, token, Some(b"nicks"), 1, 2), 0);
    assert_eq!(dispatch_completion(&records, token, None, 1, 2), -1);
}

#[test]
fn completion_word_options() {
    let c = Completion::from_raw(weechat(), 0x77);
    let mut seen = (0usize, Vec::new(), 0, Vec::new());
    c.add_with_options("bob\0", true, weechat::completion::CompletionPosition::End, |w: CompletionWord| {
        seen = (w.completion, w.word.as_bytes().to_vec(), w.is_nick, w.position.as_bytes().to_vec());
    });
    assert_eq!(seen, (0x77, b"bob".to_vec(), 1, b"end".to_vec()));
}

#[derive(Default)]
struct Clock;

impl BarItemCallback for Clock {
    fn render(&self, item: &LightBarItem, buffer: &Buffer) -> String {
        format!("{}:{}\0", item.ptr(), buffer.ptr())
    }
}

#[test]
fn bar_item_text_goes_to_host_without_terminator() {
    let mut records: Registry<BarItemCbData<Clock>> = Registry::new();
    let item = weechat()
        .new_bar_item(&mut records, "clock", None, |q: BarItemRequest, _t: usize| {
            assert_eq!(q.name.as_bytes(), b"clock");
            Some(0x70)
        })
        .ok()
        .unwrap();
    let token = item.hook.token();
    let text = dispatch_bar_item(&records, token, 3, 4).unwrap();
    assert_eq!(text.as_bytes(), b"3:4");
    let mut removed = 0;
    assert!(item.remove(&mut records, |p: usize| removed = p));
    assert_eq!(removed, 0x70);
    assert!(dispatch_bar_item(&records, token, 3, 4).is_none());
}

#[test]
fn bar_item_refused_by_host() {
    let mut records: Registry<BarItemCbData<Clock>> = Registry::new();
    let r = weechat().new_bar_item(&mut records, "clock", None, |_q: BarItemRequest, _t: usize| None);
    assert!(matches!(r, Err(RegistrationError::HostRefused)));
    assert!(!records.is_live(1));
}

#[derive(Default)]
struct Reloads {
    count: u32,
}

impl ConfigReloadCallback for Reloads {
    fn config_reloaded(&mut self) {
        self.count += 1;
    }
}

#[derive(Default)]
struct Changes {
    seen: Vec<usize>,
}

impl OptionChangeCallback for Changes {
    fn option_changed(&mut self, option: &OptionHandle) {
        self.seen.push(option.get_ptr());
    }
}

#[test]
fn config_sections_are_freed_before_the_file() {
    let mut records: Registry<ConfigPointers<Reloads>> = Registry::new();
    let mut config = weechat()
        .config_new(&mut records, "myplugin", None, |q: ConfigRequest, _t: usize| {
            assert_eq!(q.name.as_bytes(), b"myplugin");
            Some(0x100)
        })
        .ok()
        .unwrap();
    let token = config.token();
    assert_eq!(dispatch_config_reload(&mut records, token), 0);
    assert_eq!(dispatch_config_reload(&mut records, token), 0);
    let look = config
        .new_section(ConfigSectionInfo { name: "look", user_can_add_options: true, ..Default::default() }, |q: SectionRequest| {
            assert_eq!(q.config, 0x100);
            assert_eq!(q.name.as_bytes(), b"look");
            assert_eq!((q.user_can_add_options, q.user_can_delete_option), (1, 0));
            Some(0x110)
        }, no_free, no_free)
        .ok()
        .unwrap();
    assert_eq!(look.ptr(), 0x110);
    assert!(config.new_section(ConfigSectionInfo { name: "bad", ..Default::default() }, |_q: SectionRequest| None, no_free, no_free).is_err());
    let _color = config.new_section(ConfigSectionInfo { name: "color", ..Default::default() }, |_q: SectionRequest| Some(0x120), no_free, no_free);
    assert_eq!(records.get(token).unwrap().reload_data.count, 2);
    let calls = config.free(&mut records);
    assert_eq!(
        calls,
        vec![
            ConfigFreeCall::SectionOptions(0x110),
            ConfigFreeCall::Section(0x110),
            ConfigFreeCall::SectionOptions(0x120),
            ConfigFreeCall::Section(0x120),
            ConfigFreeCall::Config(0x100),
        ]
    );
    assert!(!records.is_live(token));
    assert_eq!(dispatch_config_reload(&mut records, token), -1);
}

#[test]
fn options_carry_description_and_change_callback() {
    let mut records: Registry<ConfigPointers<Reloads>> = Registry::new();
    let mut config = weechat().config_new(&mut records, "c", None, |_q: ConfigRequest, _t: usize| Some(0x200)).ok().unwrap();
    let section = config.new_section(ConfigSectionInfo { name: "s", ..Default::default() }, |_q: SectionRequest| Some(0x210), no_free, no_free).ok().unwrap();
    let mut options: Registry<OptionPointers<Changes>> = Registry::new();
    let mut context = 0;
    let level = section
        .new_integer_option(&mut options, "level", "how loud", "", 0, 10, "3", "4", false, None, |q: OptionRequest, t: usize| {
            assert_eq!((q.config, q.section), (0x200, 0x210));
            assert_eq!(q.option_type.as_bytes(), b"integer");
            assert_eq!((q.min, q.max, q.null_allowed), (0, 10, 0));
            assert_eq!(q.default_value.as_bytes(), b"3");
            assert_eq!(q.value.as_bytes(), b"4");
            context = t;
            Some(0x220)
        })
        .ok()
        .unwrap();
    assert_eq!(level.handle.get_ptr(), 0x220);
    assert_eq!(dispatch_option_change(&mut options, context, 0x220), 0);
    assert_eq!(options.get(context).unwrap().change_cb_data.seen, vec![0x220]);
    assert_eq!(level.value(|p: usize| if p == 0x220 { 4 } else { -9 }), 4);
    let name = section.new_string_option(&mut options, "nick", "", "me", "you", true, None, |q: OptionRequest, _t: usize| {
        assert_eq!(q.option_type.as_bytes(), b"string");
        assert_eq!(q.null_allowed, 1);
        None
    });
    assert!(name.is_err());
    assert!(!options.is_live(context + 1));
}

#[test]
fn option_types_and_reset_codes() {
    assert_eq!(OptionType::Boolean.as_str(), "boolean");
    assert_eq!(OptionType::Integer.as_str(), "integer");
    assert_eq!(OptionType::String.as_str(), "string");
    assert_eq!(OptionType::Color.as_str(), "color");
    assert_eq!(OptionType::default(), OptionType::String);
    assert_eq!(option_changed_from_host(2), Some(OptionChanged::Changed));
    assert_eq!(option_changed_from_host(-1), Some(OptionChanged::NotFound));
    assert_eq!(option_changed_from_host(7), None);
    let h = OptionHandle::from_ptrs(5, weechat());
    assert_eq!(h.reset(true, |p: usize, run: i32| if p == 5 && run == 1 { 1 } else { 0 }), Some(OptionChanged::Unchanged));
}

struct Demo {
    args: Vec<String>,
}

impl WeechatPlugin for Demo {
    fn init(_weechat: Weechat, mut args: ArgsWeechat) -> Result<Demo, Error> {
        let mut all = Vec::new();
        while let Some(a) = args.next() {
            all.push(a);
        }
        if all.iter().any(|a| a == "--fail") {
            Err(Error(1))
        } else {
            Ok(Demo { args: all })
        }
    }
}

#[test]
fn plugin_loads_once_and_unloads() {
    let mut slot: PluginSlot<Demo> = PluginSlot::new();
    assert_eq!(init(&mut slot, 0x1, &[b"-a".to_vec()]), 0);
    assert_eq!(slot.get().unwrap().args, vec!["-a".to_string()]);
    assert_eq!(init(&mut slot, 0x1, &[b"-b".to_vec()]), -1);
    assert_eq!(slot.get().unwrap().args, vec!["-a".to_string()]);
    assert_eq!(end(&mut slot, 0x1), 0);
    assert!(!slot.is_loaded());
    assert_eq!(init(&mut slot, 0x1, &[b"--fail".to_vec()]), -1);
    assert!(!slot.is_loaded());
}

#[test]
fn infolist_cursor() {
    let list = weechat()
        .infolist_get("buffer", "", |q: InfolistRequest| {
            assert_eq!(q.name.as_bytes(), b"buffer");
            Some(0x300)
        })
        .unwrap();
    assert!(list.next(|_p: usize| 1));
    assert!(!list.prev(|_p: usize| 0));
    assert_eq!(list.fields(|_p: usize| Some(b"s:name\0".to_vec())), Some("s:name".to_string()));
    assert_eq!(list.get_string("name", |_p: usize, n: LossyCString| Some(n.to_bytes_with_nul())), Some("name".to_string()));
    assert!(list.get_buffer(|_p: usize, _n: LossyCString| 0).is_none());
    assert_eq!(list.get_buffer(|_p: usize, _n: LossyCString| 0x5).unwrap().ptr(), 0x5);
    let mut freed = 0;
    list.free(|p: usize| freed = p);
    assert_eq!(freed, 0x300);
    assert!(weechat().infolist_get("none", "", |_q: InfolistRequest| None).is_none());
}

#[test]
fn nicklist_and_buffer_properties() {
    let buffer = Buffer::from_ptr(weechat(), 0x400);
    let group = buffer.add_group("ops", "red", true, None, |q: GroupRequest| {
        assert_eq!((q.buffer, q.parent, q.visible), (0x400, 0, 1));
        0x410
    });
    let nick = buffer.add_nick(NickArgs { name: "bob", ..Default::default() }, Some(&group), |q: NickRequest| {
        assert_eq!((q.buffer, q.group, q.visible), (0x400, 0x410, 1));
        assert_eq!(q.name.as_bytes(), b"bob");
        0x420
    });
    assert_eq!(nick.get_name(|b: usize, n: usize, p: LossyCString| {
        assert_eq!((b, n), (0x400, 0x420));
        assert_eq!(p.as_bytes(), b"name");
        Some(b"bob".to_vec())
    }), Some("bob".to_string()));
    let mut set = Vec::new();
    buffer.set_localvar("server", "libera", |_b: usize, p: LossyCString, v: LossyCString| {
        set.push((p.as_bytes().to_vec(), v.as_bytes().to_vec()));
    });
    assert_eq!(set, vec![(b"localvar_set_server".to_vec(), b"libera".to_vec())]);
    let got = buffer.get_localvar("server", |_b: usize, p: LossyCString| {
        assert_eq!(p.as_bytes(), b"localvar_server");
        None
    });
    assert_eq!(got, None);
    assert!(buffer == Buffer::from_ptr(Weechat::from_ptr(0x9), 0x400));
    assert!(buffer != Buffer::from_ptr(weechat(), 0x401));
}

#[test]
fn host_lookups() {
    let w = weechat();
    assert_eq!(w.buffer_search("irc", "libera", |p, n| {
        assert_eq!(p.unwrap().as_bytes(), b"irc");
        assert_eq!(n.unwrap().as_bytes(), b"libera");
        Some(0x500)
    }).unwrap().ptr(), 0x500);
    assert!(w.current(|p: Option<LossyCString>, n: Option<LossyCString>| {
        assert!(p.is_none() && n.is_none());
        None
    }).is_none());
    assert_eq!(w.info_get("version", "", |_n, _a| Some(b"4.0\0junk".to_vec())), Some("4.0".to_string()));
    assert_eq!(w.get_plugin_option("x", |_n| None), None);
    assert_eq!(w.set_plugin_option("x", "1", |_n, _v| 2), Some(OptionChanged::Changed));
    assert_eq!(w.set_plugin_option("x", "1", |_n, _v| 3), None);
    assert_eq!(w.eval_string_expression("${x}", |e| Some(e.as_bytes().to_vec())), Some("${x}".to_string()));
}

#[test]
fn printing_uses_a_fixed_format() {
    let w = weechat();
    let mut got = (9usize, Vec::new(), Vec::new());
    w.print("100% done", |q: PrintRequest| {
        got = (q.buffer, q.format.as_bytes().to_vec(), q.message.as_bytes().to_vec());
    });
    assert_eq!(got, (0, b"%s".to_vec(), b"100% done".to_vec()));
    let buffer = Buffer::from_ptr(w, 0x600);
    buffer.print("a\0b", |q: PrintRequest| {
        got = (q.buffer, q.format.as_bytes().to_vec(), q.message.as_bytes().to_vec());
    });
    assert_eq!(got, (0x600, b"%s".to_vec(), b"ab".to_vec()));
    let mut logged = Vec::new();
    w.log("started", |f: LossyCString, m: LossyCString| logged.push((f.as_bytes().to_vec(), m.as_bytes().to_vec())));
    assert_eq!(logged, vec![(b"%s".to_vec(), b"started".to_vec())]);
    assert_eq!(w.color(" red", |n: LossyCString| {
        assert_eq!(n.as_bytes(), b" red");
        b"\x19F09".to_vec()
    }), "\u{19}F09");
    assert_eq!(w.get_prefix("unknown", |_n: LossyCString| Vec::new()), "");
}

#[test]
fn buffer_property_names() {
    let buffer = Buffer::from_ptr(weechat(), 0x700);
    let mut set: Vec<(Vec<u8>, Vec<u8>)> = Vec::new();
    {
        let mut record = |_b: usize, p: LossyCString, v: LossyCString| set.push((p.as_bytes().to_vec(), v.as_bytes().to_vec()));
        buffer.set_title("Topic", &mut record);
        buffer.set_name("n", &mut record);
        buffer.set_short_name("s", &mut record);
        buffer.set_full_name("f", &mut record);
        buffer.disable_nicklist(&mut record);
        buffer.disable_log(&mut record);
        buffer.disable_time_for_each_line(&mut record);
    }
    let expected: Vec<(&[u8], &[u8])> = vec![
        (b"title", b"Topic"),
        (b"name", b"n"),
        (b"short_name", b"s"),
        (b"full_name", b"f"),
        (b"nicklist", b"0"),
        (b"localvar_set_no_log", b"1"),
        (b"time_for_each_line", b"0"),
    ];
    let expected: Vec<(Vec<u8>, Vec<u8>)> = expected.into_iter().map(|(p, v)| (p.to_vec(), v.to_vec())).collect();
    assert_eq!(set, expected);
    let answer = |_b: usize, p: LossyCString| Some(p.to_bytes_with_nul());
    assert_eq!(buffer.get_name(answer), Some("name".to_string()));
    assert_eq!(buffer.get_short_name(answer), Some("short_name".to_string()));
    assert_eq!(buffer.get_full_name(answer), Some("full_name".to_string()));
    assert_eq!(buffer.plugin_name(answer), Some("plugin".to_string()));
}

#[test]
fn section_of_same_name_replaces_and_frees_the_old_one() {
    let mut records: Registry<ConfigPointers<Reloads>> = Registry::new();
    let mut config = weechat().config_new(&mut records, "c", None, |_q: ConfigRequest, _t: usize| Some(0x900)).ok().unwrap();
    let freed = Rc::new(RefCell::new(Vec::new()));
    let _a = config.new_section(ConfigSectionInfo { name: "look", ..Default::default() }, |_q: SectionRequest| Some(0x910), no_free, no_free);
    let _b = config.new_section(ConfigSectionInfo { name: "color", ..Default::default() }, |_q: SectionRequest| Some(0x920), no_free, no_free);
    let f1 = freed.clone();
    let f2 = freed.clone();
    let again = config
        .new_section(
            ConfigSectionInfo { name: "look", ..Default::default() },
            |_q: SectionRequest| Some(0x930),
            move |p: usize| f1.borrow_mut().push(("options", p)),
            move |p: usize| f2.borrow_mut().push(("section", p)),
        )
        .ok()
        .unwrap();
    assert_eq!(again.ptr(), 0x930);
    assert_eq!(*freed.borrow(), vec![("options", 0x910), ("section", 0x910)]);
    let calls = config.free(&mut records);
    assert_eq!(
        calls,
        vec![
            ConfigFreeCall::SectionOptions(0x930),
            ConfigFreeCall::Section(0x930),
            ConfigFreeCall::SectionOptions(0x920),
            ConfigFreeCall::Section(0x920),
            ConfigFreeCall::Config(0x900),
        ]
    );
}

#[test]
fn scoped_config_and_infolist_are_freed_on_every_exit_path() {
    for fail in [false, true] {
        let mut records: Registry<ConfigPointers<Reloads>> = Registry::new();
        let config = weechat().config_new(&mut records, "c", None, |_q: ConfigRequest, _t: usize| Some(0xa00)).ok().unwrap();
        let token = config.token();
        let (outcome, calls) = config.scoped(&mut records, |mut c| {
            let made = c.new_section(ConfigSectionInfo { name: "s", ..Default::default() }, |_q: SectionRequest| Some(0xa10), no_free, no_free);
            let outcome: Result<usize, &str> = if fail { Err("stopped") } else { made.map(|s| s.ptr()).map_err(|_| "refused") };
            (c, outcome)
        });
        assert_eq!(outcome.is_err(), fail);
        assert_eq!(calls, vec![ConfigFreeCall::SectionOptions(0xa10), ConfigFreeCall::Section(0xa10), ConfigFreeCall::Config(0xa00)]);
        assert!(!records.is_live(token));

        let list = weechat().infolist_get("buffer", "", |_q: InfolistRequest| Some(0xb00)).unwrap();
        let freed = Rc::new(Cell::new(0usize));
        let f = freed.clone();
        let seen: Result<bool, &str> = list.scoped(move |p: usize| f.set(p), |l| {
            let more = l.next(|_p: usize| 1);
            if fail { Err("stopped") } else { Ok(more) }
        });
        assert_eq!(seen.is_err(), fail);
        assert_eq!(freed.get(), 0xb00);
    }
}

#[test]
fn decoded_arguments_hold_no_nul() {
    let argv = vec![b"\xc0\x80".to_vec(), b"ok\0hidden".to_vec()];
    let mut args = ArgsWeechat::new(&argv);
    while let Some(a) = args.next() {
        assert!(!a.contains('\0'));
    }
}
