//! The context handle on the host runtime and the argument list of a command.
use vstd::prelude::*;
use crate::config_options::option_changed_from_host;
use crate::status::{is_option_set_code, option_changed_value, OptionChanged};
use crate::strings::{from_host, host_bytes, host_text, LossyCString};

verus! {

/// A non-owning handle on the host runtime instance. Every registration and
/// every resource handle carries one to reach the host. It is never null and
/// this layer never frees what it points to.
#[derive(Clone, Copy, Debug)]
pub struct Weechat {
    ptr: usize,
}

impl Weechat {
    #[verifier::type_invariant]
    spec fn non_null(self) -> bool {
        self.ptr != 0
    }

    /// The host's address of the plugin descriptor.
    pub closed spec fn plugin(self) -> usize {
        self.ptr
    }

    /// Wraps the host's plugin descriptor; it must not be null.
    pub fn from_ptr(ptr: usize) -> (r: Weechat)
        requires
            ptr != 0,
        ensures
            r.plugin() == ptr,
    {
        Weechat { ptr }
    }

    /// The host's address of the plugin descriptor, never null.
    pub fn as_ptr(&self) -> (r: usize)
        ensures
            r == self.plugin(),
            r != 0,
    {
        proof { use_type_invariant(self); }
        self.ptr
    }
}

/// The arguments of a command, each one read from the host as text.
pub struct ArgsWeechat {
    args: Vec<String>,
    front: usize,
    back: usize,
}

impl ArgsWeechat {
    #[verifier::type_invariant]
    spec fn bounds(self) -> bool {
        self.front <= self.back <= self.args@.len()
    }

    /// The arguments not yet taken, in order.
    pub closed spec fn remaining(self) -> Seq<Seq<char>> {
        Seq::new((self.back - self.front) as nat, |i: int| self.args@[self.front + i]@)
    }

    /// Reads the host's argument vector; bytes that are not valid UTF-8 are
    /// replaced with the replacement character.
    pub fn new(argv: &[Vec<u8>]) -> (r: ArgsWeechat)
        ensures
            r.remaining().len() == argv@.len(),
            forall|i: int| 0 <= i < argv@.len() ==> #[trigger] r.remaining()[i] == host_text(argv@[i]@),
            forall|i: int| 0 <= i < argv@.len() ==> !(#[trigger] r.remaining()[i]).contains('\0'),
    {
        let mut args: Vec<String> = Vec::new();
        let mut i: usize = 0;
        while i < argv.len()
            invariant
                i <= argv@.len(),
                args@.len() == i,
                forall|j: int| 0 <= j < i ==> #[trigger] args@[j]@ == host_text(argv@[j]@),
                forall|j: int| 0 <= j < i ==> !(#[trigger] args@[j]@).contains('\0'),
            decreases argv@.len() - i,
        {
            let s = from_host(argv[i].as_slice());
            args.push(s);
            i = i + 1;
        }
        let n = args.len();
        ArgsWeechat { args, front: 0, back: n }
    }

    /// Takes the first remaining argument.
    pub fn next(&mut self) -> (r: Option<String>)
        ensures
            old(self).remaining().len() == 0 ==> r is None && final(self).remaining() == old(self).remaining(),
            old(self).remaining().len() > 0 ==> r is Some && r->Some_0@ == old(self).remaining()[0]
                && final(self).remaining() == old(self).remaining().drop_first(),
    {
        proof { use_type_invariant(&*self); }
        if self.front < self.back {
            let s = self.args[self.front].clone();
            self.front = self.front + 1;
            assert(self.remaining() =~= old(self).remaining().drop_first());
            Some(s)
        } else {
            None
        }
    }

    /// Takes the last remaining argument.
    pub fn next_back(&mut self) -> (r: Option<String>)
        ensures
            old(self).remaining().len() == 0 ==> r is None && final(self).remaining() == old(self).remaining(),
            old(self).remaining().len() > 0 ==> r is Some && r->Some_0@ == old(self).remaining().last()
                && final(self).remaining() == old(self).remaining().drop_last(),
    {
        proof { use_type_invariant(&*self); }
        if self.front < self.back {
            self.back = self.back - 1;
            let s = self.args[self.back].clone();
            assert(self.remaining() =~= old(self).remaining().drop_last());
            Some(s)
        } else {
            None
        }
    }

    /// Number of remaining arguments.
    pub fn len(&self) -> (r: usize)
        ensures
            r == self.remaining().len(),
    {
        proof { use_type_invariant(self); }
        self.back - self.front
    }

    /// Lower and upper bound on the number of remaining arguments; both exact.
    pub fn size_hint(&self) -> (r: (usize, Option<usize>))
        ensures
            r.0 == self.remaining().len(),
            r.1 == Some(r.0),
    {
        let n = self.len();
        (n, Some(n))
    }
}

/// What a host text answer reads as: `None` for a null answer, the text of
/// the bytes otherwise.
pub open spec fn host_answer_text(a: Option<Vec<u8>>, r: Option<String>) -> bool {
    &&& (r is Some <==> a is Some)
    &&& (r is Some ==> r->Some_0@ == host_text(a->Some_0@))
}

fn read_answer(a: Option<Vec<u8>>) -> (r: Option<String>)
    ensures
        host_answer_text(a, r),
{
    match &a {
        Some(b) => Some(from_host(b.as_slice())),
        None => None,
    }
}

impl Weechat {
    /// The info `info_name` with `arguments`, from the host's entry point
    /// `host_info_get`; `None` when the host has none.
    pub fn info_get<H: FnOnce(LossyCString, LossyCString) -> Option<Vec<u8>>>(
        &self,
        info_name: &str,
        arguments: &str,
        host_info_get: H,
    ) -> (r: Option<String>)
        requires
            forall|n: LossyCString, a: LossyCString| host_info_get.requires((n, a)),
        ensures
            exists|n: LossyCString, g: LossyCString, a: Option<Vec<u8>>|
                #![trigger host_info_get.ensures((n, g), a)]
                n@ == host_bytes(info_name@) && g@ == host_bytes(arguments@) && host_info_get.ensures((n, g), a)
                    && host_answer_text(a, r),
    {
        let n = LossyCString::new(info_name);
        let g = LossyCString::new(arguments);
        let ghost gn = n;
        let ghost gg = g;
        let ghost host = host_info_get;
        let a = host_info_get(n, g);
        let ghost ga = a;
        let r = read_answer(a);
        assert(gn@ == host_bytes(info_name@) && gg@ == host_bytes(arguments@) && host.ensures((gn, gg), ga));
        r
    }

    /// The value of the plugin option `option`, from the host's entry point
    /// `host_config_get_plugin`; `None` when the option does not exist.
    pub fn get_plugin_option<H: FnOnce(LossyCString) -> Option<Vec<u8>>>(&self, option: &str, host_config_get_plugin: H) -> (r:
        Option<String>)
        requires
            forall|n: LossyCString| host_config_get_plugin.requires((n,)),
        ensures
            exists|n: LossyCString, a: Option<Vec<u8>>|
                #![trigger host_config_get_plugin.ensures((n,), a)]
                n@ == host_bytes(option@) && host_config_get_plugin.ensures((n,), a) && host_answer_text(a, r),
    {
        let n = LossyCString::new(option);
        let ghost gn = n;
        let ghost host = host_config_get_plugin;
        let a = host_config_get_plugin(n);
        let ghost ga = a;
        let r = read_answer(a);
        assert(gn@ == host_bytes(option@) && host.ensures((gn,), ga));
        r
    }

    /// Sets the plugin option `option` to `value` through the host's entry
    /// point `host_config_set_plugin`, and reads the host's outcome code; an
    /// unknown code gives `None`.
    pub fn set_plugin_option<H: FnOnce(LossyCString, LossyCString) -> i32>(
        &self,
        option: &str,
        value: &str,
        host_config_set_plugin: H,
    ) -> (r: Option<OptionChanged>)
        requires
            forall|n: LossyCString, v: LossyCString| host_config_set_plugin.requires((n, v)),
        ensures
            exists|n: LossyCString, v: LossyCString, code: i32|
                #![trigger host_config_set_plugin.ensures((n, v), code)]
                n@ == host_bytes(option@) && v@ == host_bytes(value@) && host_config_set_plugin.ensures((n, v), code)
                    && (r is Some <==> is_option_set_code(code)) && (r matches Some(o) ==> option_changed_value(o) == code),
    {
        let n = LossyCString::new(option);
        let v = LossyCString::new(value);
        let ghost gn = n;
        let ghost gv = v;
        let ghost host = host_config_set_plugin;
        let code = host_config_set_plugin(n, v);
        let r = option_changed_from_host(code);
        assert(gn@ == host_bytes(option@) && gv@ == host_bytes(value@) && host.ensures((gn, gv), code));
        r
    }

    /// Evaluates the expression `expr` through the host's entry point
    /// `host_eval_expression`; `None` when the host gives no result.
    pub fn eval_string_expression<H: FnOnce(LossyCString) -> Option<Vec<u8>>>(&self, expr: &str, host_eval_expression: H) -> (r:
        Option<String>)
        requires
            forall|e: LossyCString| host_eval_expression.requires((e,)),
        ensures
            exists|e: LossyCString, a: Option<Vec<u8>>|
                #![trigger host_eval_expression.ensures((e,), a)]
                e@ == host_bytes(expr@) && host_eval_expression.ensures((e,), a) && host_answer_text(a, r),
    {
        let e = LossyCString::new(expr);
        let ghost ge = e;
        let ghost host = host_eval_expression;
        let a = host_eval_expression(e);
        let ghost ga = a;
        let r = read_answer(a);
        assert(ge@ == host_bytes(expr@) && host.ensures((ge,), ga));
        r
    }
}

/// The host's call that prints a message: the message is the argument of
/// the fixed format "%s", so that it is never read as a format. A buffer of
/// 0 is the core buffer.
pub struct PrintRequest {
    pub buffer: usize,
    pub format: LossyCString,
    pub message: LossyCString,
}

/// `q` prints `msg` in the buffer at `buffer`.
pub open spec fn prints(q: PrintRequest, buffer: usize, msg: Seq<char>) -> bool {
    &&& q.buffer == buffer
    &&& q.format@ == host_bytes("%s"@)
    &&& q.message@ == host_bytes(msg)
}

/// Prints `msg` in the buffer at `buffer` through `host_printf`.
pub fn print_to<H: FnOnce(PrintRequest)>(buffer: usize, msg: &str, host_printf: H)
    requires
        forall|q: PrintRequest| host_printf.requires((q,)),
    ensures
        exists|q: PrintRequest| #![trigger host_printf.ensures((q,), ())] prints(q, buffer, msg@) && host_printf.ensures((q,), ()),
{
    let q = PrintRequest { buffer, format: LossyCString::new("%s"), message: LossyCString::new(msg) };
    let ghost g = q;
    let ghost host = host_printf;
    host_printf(q);
    assert(prints(g, buffer, msg@) && host.ensures((g,), ()));
}

impl Weechat {
    /// Prints `msg` in the core buffer through the host's entry point
    /// `host_printf`.
    pub fn print<H: FnOnce(PrintRequest)>(&self, msg: &str, host_printf: H)
        requires
            forall|q: PrintRequest| host_printf.requires((q,)),
        ensures
            exists|q: PrintRequest| #![trigger host_printf.ensures((q,), ())] prints(q, 0, msg@) && host_printf.ensures((q,), ()),
    {
        print_to(0, msg, host_printf)
    }

    /// Writes `msg` to the host's log file through its entry point
    /// `host_log_printf`, which gets the fixed format "%s" and the message.
    pub fn log<H: FnOnce(LossyCString, LossyCString)>(&self, msg: &str, host_log_printf: H)
        requires
            forall|f: LossyCString, m: LossyCString| host_log_printf.requires((f, m)),
        ensures
            exists|f: LossyCString, m: LossyCString|
                #![trigger host_log_printf.ensures((f, m), ())]
                f@ == host_bytes("%s"@) && m@ == host_bytes(msg@) && host_log_printf.ensures((f, m), ()),
    {
        let f = LossyCString::new("%s");
        let m = LossyCString::new(msg);
        let ghost gf = f;
        let ghost gm = m;
        let ghost host = host_log_printf;
        host_log_printf(f, m);
        assert(gf@ == host_bytes("%s"@) && gm@ == host_bytes(msg@) && host.ensures((gf, gm), ()));
    }

    /// The color code of `color_name`, from the host's entry point
    /// `host_color`.
    pub fn color<H: FnOnce(LossyCString) -> Vec<u8>>(&self, color_name: &str, host_color: H) -> (r: String)
        requires
            forall|n: LossyCString| host_color.requires((n,)),
        ensures
            exists|n: LossyCString, b: Vec<u8>|
                #![trigger host_color.ensures((n,), b)]
                n@ == host_bytes(color_name@) && host_color.ensures((n,), b) && r@ == host_text(b@),
    {
        let n = LossyCString::new(color_name);
        let ghost gn = n;
        let ghost host = host_color;
        let b = host_color(n);
        let r = from_host(b.as_slice());
        assert(gn@ == host_bytes(color_name@) && host.ensures((gn,), b));
        r
    }

    /// The prefix `prefix` (error, network, action, join or quit), from the
    /// host's entry point `host_prefix`; the host answers an empty string for
    /// an unknown prefix.
    pub fn get_prefix<H: FnOnce(LossyCString) -> Vec<u8>>(&self, prefix: &str, host_prefix: H) -> (r: String)
        requires
            forall|n: LossyCString| host_prefix.requires((n,)),
        ensures
            exists|n: LossyCString, b: Vec<u8>|
                #![trigger host_prefix.ensures((n,), b)]
                n@ == host_bytes(prefix@) && host_prefix.ensures((n,), b) && r@ == host_text(b@),
    {
        let n = LossyCString::new(prefix);
        let ghost gn = n;
        let ghost host = host_prefix;
        let b = host_prefix(n);
        let r = from_host(b.as_slice());
        assert(gn@ == host_bytes(prefix@) && host.ensures((gn,), b));
        r
    }
}

} // verus!
