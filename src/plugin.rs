//! The plugin's lifecycle: the host loads it once, through `init`, and
//! unloads it once, through `end`. In between, the plugin instance lives in a
//! slot that owns it; emptying the slot drops the instance and with it every
//! resource handle it still holds.
use vstd::prelude::*;
use crate::status::ReturnCode;
use crate::strings::host_text;
use crate::weechat::{ArgsWeechat, Weechat};

verus! {

/// Why a plugin could not start; the host receives the error status.
#[derive(Clone, Copy, Debug, PartialEq, Eq, Structural)]
pub struct Error(pub i32);

/// A plugin: built once at load from the context handle and the load
/// arguments.
pub trait WeechatPlugin: Sized {
    /// Starts the plugin, or says why it cannot.
    fn init(weechat: Weechat, args: ArgsWeechat) -> Result<Self, Error>;
}

/// The slot holding the single plugin instance of the process.
pub struct PluginSlot<P> {
    plugin: Option<P>,
}

impl<P> PluginSlot<P> {
    /// The plugin instance, if it is loaded.
    pub closed spec fn instance(&self) -> Option<P> {
        self.plugin
    }

    /// An empty slot.
    pub fn new() -> (r: PluginSlot<P>)
        ensures
            r.instance() is None,
    {
        PluginSlot { plugin: None }
    }

    /// Whether a plugin instance is loaded.
    pub fn is_loaded(&self) -> (r: bool)
        ensures
            r == self.instance() is Some,
    {
        self.plugin.is_some()
    }

    /// The loaded plugin instance.
    pub fn get(&self) -> (r: Option<&P>)
        ensures
            r is Some <==> self.instance() is Some,
            r is Some ==> *r->Some_0 == self.instance()->Some_0,
    {
        self.plugin.as_ref()
    }

    /// Stores the outcome of a plugin's start: a started plugin fills the
    /// empty slot and the host gets 0; a failed start leaves it empty and
    /// the host gets -1. A slot that is already filled is left as it is and
    /// the host gets -1: the plugin is loaded once.
    pub fn finish_init(&mut self, started: Result<P, Error>) -> (r: i32)
        ensures
            old(self).instance() is Some ==> r == -1 && final(self).instance() == old(self).instance(),
            old(self).instance() is None ==> match started {
                Ok(p) => r == 0 && final(self).instance() == Some(p),
                Err(_) => r == -1 && final(self).instance() is None,
            },
    {
        if self.plugin.is_some() {
            return ReturnCode::Error.value();
        }
        match started {
            Ok(p) => {
                self.plugin = Some(p);
                ReturnCode::Success.value()
            },
            Err(_) => ReturnCode::Error.value(),
        }
    }
}

/// The host's load entry point: reads the arguments, starts the plugin `P`
/// with the context handle on `plugin` (never null) and stores it in `slot`.
/// The host gets 0 when the plugin started, -1 otherwise.
pub fn init<P: WeechatPlugin>(slot: &mut PluginSlot<P>, plugin: usize, argv: &[Vec<u8>]) -> (r: i32)
    requires
        plugin != 0,
    ensures
        old(slot).instance() is Some ==> r == -1 && final(slot).instance() == old(slot).instance(),
        old(slot).instance() is None ==> (r == 0 <==> final(slot).instance() is Some),
        old(slot).instance() is None ==> (r == -1 <==> final(slot).instance() is None),
        old(slot).instance() is None ==> exists|w: Weechat, a: ArgsWeechat, started: Result<P, Error>|
            #![trigger P::init.ensures((w, a), started)]
            {
                &&& w.plugin() == plugin
                &&& a.remaining().len() == argv@.len()
                &&& forall|i: int| 0 <= i < argv@.len() ==> #[trigger] a.remaining()[i] == host_text(argv@[i]@)
                &&& P::init.ensures((w, a), started)
                &&& match started {
                    Ok(p) => r == 0 && final(slot).instance() == Some(p),
                    Err(_) => r == -1 && final(slot).instance() is None,
                }
            },
{
    if slot.is_loaded() {
        return ReturnCode::Error.value();
    }
    let weechat = Weechat::from_ptr(plugin);
    let args = ArgsWeechat::new(argv);
    let ghost a = args;
    let started = P::init(weechat, args);
    let ghost s = started;
    let r = slot.finish_init(started);
    assert(P::init.ensures((weechat, a), s));
    r
}

/// The host's unload entry point: empties `slot`, dropping the plugin
/// instance and everything it owns. The host gets 0.
pub fn end<P>(slot: &mut PluginSlot<P>, plugin: usize) -> (r: i32)
    requires
        plugin != 0,
    ensures
        r == 0,
        final(slot).instance() is None,
{
    let _unloaded = slot.plugin.take();
    ReturnCode::Success.value()
}

} // verus!
