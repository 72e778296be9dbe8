//! Configuration files, their sections and their options.
use vstd::prelude::*;
use crate::buffer::payload_from;
use crate::config_options::{IntegerOption, OptionHandle, OptionType, StringOption};
use crate::registry::{dispatch_outcome, hook_result, registration_outcome, release_outcome, Hook, Registry, RegistrationError};
use crate::status::ReturnCode;
use crate::strings::{host_bytes, str_eq, LossyCString};
use crate::weechat::Weechat;

verus! {

/// What happens when the host reloads a configuration file; implemented by
/// the payload handed to `Weechat::config_new`.
pub trait ConfigReloadCallback {
    /// Called on each reload.
    fn config_reloaded(&mut self);
}

/// What happens when an option changes; implemented by the payload handed
/// to the option's creation.
pub trait OptionChangeCallback {
    /// Called with the option after each change.
    fn option_changed(&mut self, option: &OptionHandle);
}

/// The callback record of a configuration file.
pub struct ConfigPointers<T> {
    pub reload_data: T,
}

/// The host's configuration file creation call, without the context token.
pub struct ConfigRequest {
    pub name: LossyCString,
}

/// A section of a configuration file. Sections are freed with their file.
#[derive(Clone, Copy, Debug)]
pub struct ConfigSection {
    ptr: usize,
    config_ptr: usize,
    weechat: Weechat,
}

/// Settings of a new section.
#[derive(Default)]
pub struct ConfigSectionInfo<'a> {
    /// Name of the section.
    pub name: &'a str,
    /// Whether users may add options to the section.
    pub user_can_add_options: bool,
    /// Whether users may delete options of the section.
    pub user_can_delete_option: bool,
}

/// The host's section creation call.
pub struct SectionRequest {
    pub config: usize,
    pub name: LossyCString,
    pub user_can_add_options: i32,
    pub user_can_delete_option: i32,
}

/// A configuration file. Its sections are kept by name, in creation order;
/// a new section replaces the one of the same name. `free` lists the host
/// calls that release them and then the file.
pub struct Config {
    hook: Hook,
    sections: Vec<ConfigSection>,
    names: Vec<String>,
}

/// One host call of a configuration file's teardown.
#[derive(Clone, Copy, Debug, PartialEq, Eq, Structural)]
pub enum ConfigFreeCall {
    /// Free the options of the section at this address.
    SectionOptions(usize),
    /// Free the section at this address.
    Section(usize),
    /// Free the configuration file at this address.
    Config(usize),
}

/// The host calls that free the sections at `sections`, in order: the
/// options of each section, then the section itself.
pub open spec fn section_teardown(sections: Seq<usize>) -> Seq<ConfigFreeCall>
    decreases sections.len(),
{
    if sections.len() == 0 {
        Seq::empty()
    } else {
        section_teardown(sections.drop_last()).push(ConfigFreeCall::SectionOptions(sections.last())).push(
            ConfigFreeCall::Section(sections.last()),
        )
    }
}

/// `after` is `before` with the section at `p` named `name` added: after
/// the others when no section has that name, otherwise in place of that
/// section, which `free_options` and `free_section` were called on.
pub open spec fn section_added<O: FnOnce(usize), S: FnOnce(usize)>(
    before: Config,
    after: Config,
    name: Seq<char>,
    p: usize,
    free_options: O,
    free_section: S,
) -> bool {
    if before.section_names().contains(name) {
        exists|i: int|
            #![trigger before.section_names()[i]]
            {
                &&& 0 <= i < before.section_names().len()
                &&& before.section_names()[i] == name
                &&& after.section_ptrs() == before.section_ptrs().update(i, p)
                &&& after.section_names() == before.section_names()
                &&& free_options.ensures((before.section_ptrs()[i],), ())
                &&& free_section.ensures((before.section_ptrs()[i],), ())
            }
    } else {
        &&& after.section_ptrs() == before.section_ptrs().push(p)
        &&& after.section_names() == before.section_names().push(name)
    }
}

/// The host handle that a configuration file registration produced.
pub open spec fn config_result(r: Result<Config, RegistrationError>) -> Result<usize, RegistrationError> {
    match r {
        Ok(c) => Ok(c.host_ptr()),
        Err(e) => Err(e),
    }
}

impl ConfigSection {
    /// The host's address of the section.
    pub closed spec fn host_ptr(self) -> usize {
        self.ptr
    }

    /// The context handle the section was made with.
    pub closed spec fn context(self) -> Weechat {
        self.weechat
    }

    /// The host's address of the file the section belongs to.
    pub closed spec fn config_host_ptr(self) -> usize {
        self.config_ptr
    }

    /// The host's address of the section.
    pub fn ptr(&self) -> (r: usize)
        ensures
            r == self.host_ptr(),
    {
        self.ptr
    }
}

impl Config {
    /// The host's address of the file.
    pub closed spec fn host_ptr(&self) -> usize {
        self.hook.host_ptr()
    }

    /// The token of the file's callback record.
    pub closed spec fn record_token(&self) -> usize {
        self.hook.record_token()
    }

    /// One name for each section, no two equal.
    pub closed spec fn wf(&self) -> bool {
        &&& self.names@.len() == self.sections@.len()
        &&& forall|i: int, j: int|
            0 <= i < j < self.names@.len() ==> #[trigger] self.names@[i]@ != #[trigger] self.names@[j]@
    }

    /// The host's addresses of the file's sections, in creation order.
    pub closed spec fn section_ptrs(&self) -> Seq<usize> {
        self.sections@.map_values(|s: ConfigSection| s.ptr)
    }

    /// The names of the file's sections, in the order of `section_ptrs`;
    /// no two are equal.
    pub closed spec fn section_names(&self) -> Seq<Seq<char>> {
        self.names@.map_values(|n: String| n@)
    }

    /// The token of the file's callback record.
    pub fn token(&self) -> (r: usize)
        ensures
            r == self.record_token(),
    {
        self.hook.token()
    }

    /// The host's address of the file.
    pub fn ptr(&self) -> (r: usize)
        ensures
            r == self.host_ptr(),
    {
        self.hook.ptr()
    }

    /// Creates a section described by `section_info` through the host's
    /// entry point `host_new_section`. A refused section (`None`) leaves the
    /// file unchanged. An accepted one is kept under its name: after the
    /// others when the name is new; otherwise in place of the section of that
    /// name, whose options and then itself are freed through the host's entry
    /// points `host_free_options` and `host_free_section`.
    pub fn new_section<H, O, S>(
        &mut self,
        section_info: ConfigSectionInfo,
        host_new_section: H,
        host_free_options: O,
        host_free_section: S,
    ) -> (r: Result<ConfigSection, RegistrationError>)
        where
            H: FnOnce(SectionRequest) -> Option<usize>,
            O: FnOnce(usize),
            S: FnOnce(usize),
        requires
            old(self).wf(),
            forall|q: SectionRequest| host_new_section.requires((q,)),
            forall|p: usize| host_free_options.requires((p,)),
            forall|p: usize| host_free_section.requires((p,)),
        ensures
            final(self).wf(),
            final(self).host_ptr() == old(self).host_ptr(),
            final(self).record_token() == old(self).record_token(),
            exists|q: SectionRequest, answer: Option<usize>|
                #![trigger host_new_section.ensures((q,), answer)]
                {
                    &&& q.config == old(self).host_ptr()
                    &&& q.name@ == host_bytes(section_info.name@)
                    &&& q.user_can_add_options == (if section_info.user_can_add_options { 1i32 } else { 0i32 })
                    &&& q.user_can_delete_option == (if section_info.user_can_delete_option { 1i32 } else { 0i32 })
                    &&& host_new_section.ensures((q,), answer)
                    &&& match answer {
                        Some(p) => r matches Ok(s) && s.host_ptr() == p && s.config_host_ptr() == old(self).host_ptr()
                            && section_added(*old(self), *final(self), section_info.name@, p, host_free_options, host_free_section),
                        None => r == Err::<ConfigSection, RegistrationError>(RegistrationError::HostRefused)
                            && final(self).section_ptrs() == old(self).section_ptrs()
                            && final(self).section_names() == old(self).section_names(),
                    }
                },
    {
        let config_ptr = self.hook.ptr();
        let request = SectionRequest {
            config: config_ptr,
            name: LossyCString::new(section_info.name),
            user_can_add_options: if section_info.user_can_add_options { 1 } else { 0 },
            user_can_delete_option: if section_info.user_can_delete_option { 1 } else { 0 },
        };
        let ghost q = request;
        let ghost host = host_new_section;
        let ghost fo = host_free_options;
        let ghost fs = host_free_section;
        let answer = host_new_section(request);
        let r = match answer {
            Some(p) => {
                let section = ConfigSection { ptr: p, config_ptr, weechat: self.hook.get_weechat() };
                let mut i: usize = 0;
                while i < self.names.len() && !str_eq(self.names[i].as_str(), section_info.name)
                    invariant
                        i <= self.names@.len(),
                        forall|j: int| 0 <= j < i ==> (#[trigger] self.names@[j])@ != section_info.name@,
                    decreases self.names@.len() - i,
                {
                    i = i + 1;
                }
                if i < self.names.len() {
                    let old_ptr = self.sections[i].ptr;
                    host_free_options(old_ptr);
                    host_free_section(old_ptr);
                    self.sections.set(i, section);
                    assert(self.section_ptrs() =~= old(self).section_ptrs().update(i as int, p));
                    assert(self.names@[i as int]@ == section_info.name@);
                    assert(self.section_names() =~= old(self).section_names());
                    assert(old(self).section_names()[i as int] == section_info.name@);
                    assert(old(self).section_names().contains(section_info.name@));
                    assert(old(self).section_ptrs()[i as int] == old_ptr);
                    assert(fo.ensures((old_ptr,), ()) && fs.ensures((old_ptr,), ()));
                    assert(section_added(*old(self), *self, section_info.name@, p, fo, fs));
                } else {
                    self.sections.push(section);
                    self.names.push(String::from_str(section_info.name));
                    assert(self.section_ptrs() =~= old(self).section_ptrs().push(p));
                    assert(self.section_names() =~= old(self).section_names().push(section_info.name@));
                    assert(!old(self).section_names().contains(section_info.name@)) by {
                        if old(self).section_names().contains(section_info.name@) {
                            let k = choose|k: int| 0 <= k < old(self).section_names().len() && old(self).section_names()[k] == section_info.name@;
                            assert(old(self).names@[k]@ == section_info.name@);
                        }
                    }
                    assert(section_added(*old(self), *self, section_info.name@, p, fo, fs));
                }
                Ok(section)
            },
            None => Err(RegistrationError::HostRefused),
        };
        assert(host.ensures((q,), answer));
        r
    }

    /// Runs `body` on the file, which it hands back, then tears that file
    /// down as `free` does, whatever `body` returned. Returns what `body`
    /// returned and the host calls of the teardown.
    pub fn scoped<T, U, F>(self, records: &mut Registry<ConfigPointers<T>>, body: F) -> (r: (U, Vec<ConfigFreeCall>))
        where
            F: FnOnce(Config) -> (Config, U),
        requires
            old(records).wf(),
            forall|c: Config| #[trigger] body.requires((c,)),
        ensures
            final(records).wf(),
            exists|out: (Config, U)|
                #![trigger body.ensures((self,), out)]
                {
                    &&& body.ensures((self,), out)
                    &&& r.0 == out.1
                    &&& r.1@ == section_teardown(out.0.section_ptrs()).push(ConfigFreeCall::Config(out.0.host_ptr()))
                    &&& release_outcome(*old(records), *final(records), out.0.record_token() as int)
                },
    {
        let ghost start = self;
        let result = body(self);
        let ghost g = result;
        let (config, out) = result;
        let calls = config.free(records);
        assert(body.ensures((start,), g));
        (out, calls)
    }

    /// Tears the file down: reclaims its callback record and returns the host
    /// calls to make, in order: the options and then each section, in
    /// creation order, and the file last.
    pub fn free<T>(self, records: &mut Registry<ConfigPointers<T>>) -> (r: Vec<ConfigFreeCall>)
        requires
            old(records).wf(),
        ensures
            final(records).wf(),
            r@ == section_teardown(self.section_ptrs()).push(ConfigFreeCall::Config(self.host_ptr())),
            release_outcome(*old(records), *final(records), self.record_token() as int),
    {
        let mut calls: Vec<ConfigFreeCall> = Vec::new();
        let mut i: usize = 0;
        while i < self.sections.len()
            invariant
                i <= self.sections@.len(),
                calls@ == section_teardown(self.section_ptrs().subrange(0, i as int)),
            decreases self.sections@.len() - i,
        {
            let p = self.sections[i].ptr;
            assert(self.section_ptrs().subrange(0, i + 1).drop_last() =~= self.section_ptrs().subrange(0, i as int));
            calls.push(ConfigFreeCall::SectionOptions(p));
            calls.push(ConfigFreeCall::Section(p));
            i = i + 1;
        }
        assert(self.section_ptrs().subrange(0, i as int) =~= self.section_ptrs());
        calls.push(ConfigFreeCall::Config(self.hook.ptr()));
        let _dropped = records.reclaim(self.hook.token());
        calls
    }
}

impl Weechat {
    /// Creates the configuration file `name`, whose reload callback is the
    /// payload `reload_data` (the type's default value when not given),
    /// through the host's entry point `host_config_new`. If the host refuses,
    /// the callback record is reclaimed and the refusal returned.
    pub fn config_new<T, H>(
        &self,
        records: &mut Registry<ConfigPointers<T>>,
        name: &str,
        reload_data: Option<T>,
        host_config_new: H,
    ) -> (r: Result<Config, RegistrationError>)
        where
            T: ConfigReloadCallback + Default,
            H: FnOnce(ConfigRequest, usize) -> Option<usize>,
        requires
            old(records).wf(),
            old(records).issued() < usize::MAX,
            forall|q: ConfigRequest, t: usize| host_config_new.requires((q, t)),
        ensures
            final(records).wf(),
            r matches Ok(c) ==> c.record_token() == old(records).issued() + 1 && c.section_ptrs().len() == 0 && c.wf(),
            exists|q: ConfigRequest, rec: ConfigPointers<T>, answer: Option<usize>|
                {
                    &&& q.name@ == host_bytes(name@)
                    &&& payload_from(reload_data, rec.reload_data)
                    &&& host_config_new.ensures((q, (old(records).issued() + 1) as usize), answer)
                    &&& registration_outcome(*old(records), *final(records), rec, answer, config_result(r))
                },
    {
        let ghost given = reload_data;
        let record = ConfigPointers { reload_data: reload_data.unwrap_or_default() };
        let ghost rec = record;
        let request = ConfigRequest { name: LossyCString::new(name) };
        let ghost q = request;
        let ghost before = *records;
        let ghost host = host_config_new;
        let r = Hook::register(*self, records, record, request, host_config_new);
        let ghost a = choose|a: Option<usize>|
            host.ensures((q, (before.issued() + 1) as usize), a) && registration_outcome(before, *records, rec, a, hook_result(r));
        let out = match r {
            Ok(hook) => {
                let c = Config { hook, sections: Vec::new(), names: Vec::new() };
                assert(c.section_ptrs() =~= Seq::<usize>::empty());
                Ok(c)
            },
            Err(e) => Err(e),
        };
        assert(config_result(out) == hook_result(r));
        assert({
            &&& q.name@ == host_bytes(name@)
            &&& payload_from(given, rec.reload_data)
            &&& host.ensures((q, (before.issued() + 1) as usize), a)
            &&& registration_outcome(before, *records, rec, a, config_result(out))
        });
        out
    }
}

/// Dispatch adapter of a configuration file's reload. The reload callback
/// runs with the record's payload, which it may change, and the host gets 0.
/// A token without a live record gets -1 and nothing runs.
pub fn dispatch_config_reload<T: ConfigReloadCallback>(records: &mut Registry<ConfigPointers<T>>, token: usize) -> (r: i32)
    requires
        old(records).wf(),
    ensures
        final(records).wf(),
        old(records).live().contains_key(token as int) ==> r == 0 && dispatch_outcome(*old(records), *final(records), token as int),
        old(records).live().contains_key(token as int) ==> exists|m: &mut T|
            #![trigger T::config_reloaded.ensures((m,), ())]
            *m == old(records).live()[token as int].reload_data && *final(m) == final(records).live()[
                token as int].reload_data && T::config_reloaded.ensures((m,), ()),
        !old(records).live().contains_key(token as int) ==> r == -1 && final(records).same_state(old(records)),
{
    proof { records.lemma_wf(); }
    match records.lend(token) {
        Some(mut record) => {
            let m = &mut record.reload_data;
            m.config_reloaded();
            records.give_back(token, record);
            assert(records.live().dom() =~= old(records).live().dom());
            assert(records.lent() =~= old(records).lent());
            ReturnCode::Success.value()
        },
        None => {
            assert(records.live() =~= old(records).live());
            ReturnCode::Error.value()
        },
    }
}

/// Everything the host needs to create an option, but the callbacks.
pub struct OptionDescription<'a> {
    pub name: &'a str,
    pub option_type: OptionType,
    pub description: &'a str,
    pub string_values: &'a str,
    pub min: i32,
    pub max: i32,
    pub default_value: &'a str,
    pub value: &'a str,
    pub null_allowed: bool,
}

/// The host's option creation call, without the context token.
pub struct OptionRequest {
    pub config: usize,
    pub section: usize,
    pub name: LossyCString,
    pub option_type: LossyCString,
    pub description: LossyCString,
    pub string_values: LossyCString,
    pub min: i32,
    pub max: i32,
    pub default_value: LossyCString,
    pub value: LossyCString,
    pub null_allowed: i32,
}

/// The callback record of an option.
pub struct OptionPointers<D> {
    pub weechat: Weechat,
    pub change_cb_data: D,
}

/// `q` asks the host for the option that `d` describes, in the section `s`.
pub open spec fn option_request_of(q: OptionRequest, s: ConfigSection, d: OptionDescription) -> bool {
    &&& q.config == s.config_host_ptr()
    &&& q.section == s.host_ptr()
    &&& q.name@ == host_bytes(d.name@)
    &&& (d.option_type == OptionType::Boolean ==> q.option_type@ == host_bytes("boolean"@))
    &&& (d.option_type == OptionType::Integer ==> q.option_type@ == host_bytes("integer"@))
    &&& (d.option_type == OptionType::String ==> q.option_type@ == host_bytes("string"@))
    &&& (d.option_type == OptionType::Color ==> q.option_type@ == host_bytes("color"@))
    &&& q.description@ == host_bytes(d.description@)
    &&& q.string_values@ == host_bytes(d.string_values@)
    &&& q.min == d.min
    &&& q.max == d.max
    &&& q.default_value@ == host_bytes(d.default_value@)
    &&& q.value@ == host_bytes(d.value@)
    &&& q.null_allowed == (if d.null_allowed { 1i32 } else { 0i32 })
}

impl ConfigSection {
    /// Creates the option that `option_description` describes, with the
    /// change callback `change_cb_data` (the type's default value when not
    /// given), through the host's entry point `host_config_new_option`. If
    /// the host refuses, the callback record is reclaimed and the refusal
    /// returned.
    pub fn new_option<D, H>(
        &self,
        records: &mut Registry<OptionPointers<D>>,
        option_description: OptionDescription,
        change_cb_data: Option<D>,
        host_config_new_option: H,
    ) -> (r: Result<OptionHandle, RegistrationError>)
        where
            D: OptionChangeCallback + Default,
            H: FnOnce(OptionRequest, usize) -> Option<usize>,
        requires
            old(records).wf(),
            old(records).issued() < usize::MAX,
            forall|q: OptionRequest, t: usize| host_config_new_option.requires((q, t)),
        ensures
            final(records).wf(),
            exists|q: OptionRequest, rec: OptionPointers<D>, answer: Option<usize>|
                #![trigger option_request_of(q, *self, option_description), payload_from(change_cb_data, rec.change_cb_data), host_config_new_option.ensures((q, (old(records).issued() + 1) as usize), answer)]
                {
                    &&& option_request_of(q, *self, option_description)
                    &&& rec.weechat == self.context()
                    &&& payload_from(change_cb_data, rec.change_cb_data)
                    &&& host_config_new_option.ensures((q, (old(records).issued() + 1) as usize), answer)
                    &&& registration_outcome(*old(records), *final(records), rec, answer, match r {
                        Ok(o) => Ok(o.host_ptr()),
                        Err(e) => Err(e),
                    })
                },
    {
        let ghost given = change_cb_data;
        let record = OptionPointers { weechat: self.weechat, change_cb_data: change_cb_data.unwrap_or_default() };
        let ghost rec = record;
        let request = OptionRequest {
            config: self.config_ptr,
            section: self.ptr,
            name: LossyCString::new(option_description.name),
            option_type: LossyCString::new(option_description.option_type.as_str()),
            description: LossyCString::new(option_description.description),
            string_values: LossyCString::new(option_description.string_values),
            min: option_description.min,
            max: option_description.max,
            default_value: LossyCString::new(option_description.default_value),
            value: LossyCString::new(option_description.value),
            null_allowed: if option_description.null_allowed { 1 } else { 0 },
        };
        let ghost q = request;
        let ghost host = host_config_new_option;
        let ghost before = *records;
        let (token, answer) = records.register(record, request, host_config_new_option);
        let r = match answer {
            Ok(p) => Ok(OptionHandle::from_ptrs(p, self.weechat)),
            Err(e) => Err(e),
        };
        let ghost a = choose|a: Option<usize>|
            host.ensures((q, token), a) && registration_outcome(before, *records, rec, a, answer);
        assert({
            &&& option_request_of(q, *self, option_description)
            &&& rec.weechat == self.context()
            &&& payload_from(given, rec.change_cb_data)
            &&& host.ensures((q, (before.issued() + 1) as usize), a)
            &&& registration_outcome(before, *records, rec, a, match r {
                Ok(o) => Ok(o.host_ptr()),
                Err(e) => Err(e),
            })
        });
        r
    }

    /// Creates a string option; see `new_option`.
    pub fn new_string_option<D, H>(
        &self,
        records: &mut Registry<OptionPointers<D>>,
        name: &str,
        description: &str,
        default_value: &str,
        value: &str,
        null_allowed: bool,
        change_cb_data: Option<D>,
        host_config_new_option: H,
    ) -> (r: Result<StringOption, RegistrationError>)
        where
            D: OptionChangeCallback + Default,
            H: FnOnce(OptionRequest, usize) -> Option<usize>,
        requires
            old(records).wf(),
            old(records).issued() < usize::MAX,
            forall|q: OptionRequest, t: usize| host_config_new_option.requires((q, t)),
        ensures
            final(records).wf(),
            exists|q: OptionRequest, rec: OptionPointers<D>, answer: Option<usize>|
                #![trigger host_config_new_option.ensures((q, (old(records).issued() + 1) as usize), answer), payload_from(change_cb_data, rec.change_cb_data)]
                {
                    &&& q.config == self.config_host_ptr() && q.section == self.host_ptr()
                    &&& q.name@ == host_bytes(name@)
                    &&& q.option_type@ == host_bytes("string"@)
                    &&& q.description@ == host_bytes(description@)
                    &&& q.string_values@ == host_bytes(""@)
                    &&& q.min == 0 && q.max == 0
                    &&& q.default_value@ == host_bytes(default_value@)
                    &&& q.value@ == host_bytes(value@)
                    &&& q.null_allowed == (if null_allowed { 1i32 } else { 0i32 })
                    &&& rec.weechat == self.context()
                    &&& payload_from(change_cb_data, rec.change_cb_data)
                    &&& host_config_new_option.ensures((q, (old(records).issued() + 1) as usize), answer)
                    &&& registration_outcome(*old(records), *final(records), rec, answer, match r {
                        Ok(o) => Ok(o.handle.host_ptr()),
                        Err(e) => Err(e),
                    })
                },
    {
        let d = OptionDescription {
            name,
            option_type: OptionType::String,
            description,
            string_values: "",
            min: 0,
            max: 0,
            default_value,
            value,
            null_allowed,
        };
        match self.new_option(records, d, change_cb_data, host_config_new_option) {
            Ok(handle) => Ok(StringOption { handle }),
            Err(e) => Err(e),
        }
    }

    /// Creates an integer option bounded by `min` and `max`, or taking one of
    /// the `|`-separated `string_values`; see `new_option`.
    pub fn new_integer_option<D, H>(
        &self,
        records: &mut Registry<OptionPointers<D>>,
        name: &str,
        description: &str,
        string_values: &str,
        min: i32,
        max: i32,
        default_value: &str,
        value: &str,
        null_allowed: bool,
        change_cb_data: Option<D>,
        host_config_new_option: H,
    ) -> (r: Result<IntegerOption, RegistrationError>)
        where
            D: OptionChangeCallback + Default,
            H: FnOnce(OptionRequest, usize) -> Option<usize>,
        requires
            old(records).wf(),
            old(records).issued() < usize::MAX,
            forall|q: OptionRequest, t: usize| host_config_new_option.requires((q, t)),
        ensures
            final(records).wf(),
            exists|q: OptionRequest, rec: OptionPointers<D>, answer: Option<usize>|
                #![trigger host_config_new_option.ensures((q, (old(records).issued() + 1) as usize), answer), payload_from(change_cb_data, rec.change_cb_data)]
                {
                    &&& q.config == self.config_host_ptr() && q.section == self.host_ptr()
                    &&& q.name@ == host_bytes(name@)
                    &&& q.option_type@ == host_bytes("integer"@)
                    &&& q.description@ == host_bytes(description@)
                    &&& q.string_values@ == host_bytes(string_values@)
                    &&& q.min == min && q.max == max
                    &&& q.default_value@ == host_bytes(default_value@)
                    &&& q.value@ == host_bytes(value@)
                    &&& q.null_allowed == (if null_allowed { 1i32 } else { 0i32 })
                    &&& rec.weechat == self.context()
                    &&& payload_from(change_cb_data, rec.change_cb_data)
                    &&& host_config_new_option.ensures((q, (old(records).issued() + 1) as usize), answer)
                    &&& registration_outcome(*old(records), *final(records), rec, answer, match r {
                        Ok(o) => Ok(o.handle.host_ptr()),
                        Err(e) => Err(e),
                    })
                },
    {
        let d = OptionDescription {
            name,
            option_type: OptionType::Integer,
            description,
            string_values,
            min,
            max,
            default_value,
            value,
            null_allowed,
        };
        match self.new_option(records, d, change_cb_data, host_config_new_option) {
            Ok(handle) => Ok(IntegerOption { handle }),
            Err(e) => Err(e),
        }
    }
}

/// Dispatch adapter of an option change. The change callback runs with the
/// record's payload, which it may change, and the option. A token without a
/// live record gets -1 and nothing runs.
pub fn dispatch_option_change<D: OptionChangeCallback>(
    records: &mut Registry<OptionPointers<D>>,
    token: usize,
    option: usize,
) -> (r: i32)
    requires
        old(records).wf(),
    ensures
        final(records).wf(),
        old(records).live().contains_key(token as int) ==> r == 0 && dispatch_outcome(*old(records), *final(records), token as int)
            && final(records).live()[token as int].weechat == old(records).live()[token as int].weechat,
        old(records).live().contains_key(token as int) ==> exists|m: &mut D, h: OptionHandle|
            #![trigger D::option_changed.ensures((m, &h), ())]
            {
                &&& *m == old(records).live()[token as int].change_cb_data
                &&& *final(m) == final(records).live()[token as int].change_cb_data
                &&& h.host_ptr() == option && h.context() == old(records).live()[token as int].weechat
                &&& D::option_changed.ensures((m, &h), ())
            },
        !old(records).live().contains_key(token as int) ==> r == -1 && final(records).same_state(old(records)),
{
    proof { records.lemma_wf(); }
    match records.lend(token) {
        Some(mut record) => {
            let handle = OptionHandle::from_ptrs(option, record.weechat);
            let m = &mut record.change_cb_data;
            m.option_changed(&handle);
            records.give_back(token, record);
            assert(records.live().dom() =~= old(records).live().dom());
            assert(records.lent() =~= old(records).lent());
            ReturnCode::Success.value()
        },
        None => {
            assert(records.live() =~= old(records).live());
            ReturnCode::Error.value()
        },
    }
}

} // verus!
