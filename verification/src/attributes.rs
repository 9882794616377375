//! Parameters of the attribute macros that mark application entry points and configuration
//! functions: which parameters are accepted, and how the refused ones are reported.
use vstd::prelude::*;
use crate::text::{backquoted_list, spec_backquoted_list, str_eq};

verus! {

/// A driver whose configuration an application may provide.
#[derive(Debug, Copy, Clone, PartialEq, Eq, Structural)]
pub enum ConfigKind {
    Network,
    Usb,
}

impl ConfigKind {
    /// The parameter that names the driver.
    pub open spec fn spec_name(self) -> Seq<char> {
        match self {
            ConfigKind::Network => "network"@,
            ConfigKind::Usb => "usb"@,
        }
    }

    /// All the drivers, in declaration order.
    pub open spec fn spec_all() -> Seq<ConfigKind> {
        seq![ConfigKind::Network, ConfigKind::Usb]
    }

    /// Returns all the drivers, in declaration order.
    pub fn all() -> (r: Vec<ConfigKind>)
        ensures
            r@ == Self::spec_all(),
    {
        let r = vec![ConfigKind::Network, ConfigKind::Usb];
        assert(r@ =~= Self::spec_all());
        r
    }

    /// Returns the parameter that names the driver.
    pub fn as_name(&self) -> (r: &'static str)
        ensures
            r@ == self.spec_name(),
    {
        match self {
            Self::Network => "network",
            Self::Usb => "usb",
        }
    }

    /// The name of the function through which the system obtains the configuration.
    pub open spec fn spec_config_fn_name(self) -> Seq<char> {
        match self {
            ConfigKind::Network => "riot_rs_network_config"@,
            ConfigKind::Usb => "riot_rs_usb_config"@,
        }
    }

    /// The type of the configuration, relative to the crate that provides the system.
    pub open spec fn spec_config_type_suffix(self) -> Seq<char> {
        match self {
            ConfigKind::Network => "::embassy::embassy_net::Config"@,
            ConfigKind::Usb => "::embassy::embassy_usb::Config<'static>"@,
        }
    }

    /// Returns the name of the function through which the system obtains the configuration.
    pub fn config_fn_name(&self) -> (r: &'static str)
        ensures
            r@ == self.spec_config_fn_name(),
    {
        match self {
            Self::Network => "riot_rs_network_config",
            Self::Usb => "riot_rs_usb_config",
        }
    }

    /// Returns the path of the configuration type, under the crate that provides the system
    /// when it is known (a path from the root otherwise).
    pub fn config_type_path(&self, riot_rs_crate: Option<&str>) -> (r: String)
        ensures
            r@ == match riot_rs_crate {
                Some(c) => c@ + self.spec_config_type_suffix(),
                None => self.spec_config_type_suffix(),
            },
    {
        let suffix = match self {
            Self::Network => "::embassy::embassy_net::Config",
            Self::Usb => "::embassy::embassy_usb::Config<'static>",
        };
        match riot_rs_crate {
            Some(c) => {
                let mut r = String::from_str(c);
                r.append(suffix);
                r
            },
            None => String::from_str(suffix),
        }
    }
}

/// The driver that `param` names, if any.
pub open spec fn config_kind_named(param: Option<Seq<char>>) -> Option<ConfigKind> {
    match param {
        Some(p) => if p == ConfigKind::Network.spec_name() {
            Some(ConfigKind::Network)
        } else if p == ConfigKind::Usb.spec_name() {
            Some(ConfigKind::Usb)
        } else {
            None
        },
        None => None,
    }
}

/// The names of `kinds`.
pub open spec fn config_names(kinds: Seq<ConfigKind>) -> Seq<Seq<char>> {
    kinds.map_values(|k: ConfigKind| k.spec_name())
}

/// The message for a refused parameter of the configuration attribute.
pub open spec fn unsupported_parameter_message() -> Seq<char> {
    "unsupported parameter ("@ + spec_backquoted_list(config_names(ConfigKind::spec_all()))
        + " are supported)"@
}

/// The view of an optional string slice.
pub open spec fn opt_view(o: Option<&str>) -> Option<Seq<char>> {
    match o {
        Some(s) => Some(s@),
        None => None,
    }
}

/// Parameters of the configuration attribute: the driver configured.
pub struct ConfigAttributes {
    pub kind: Option<ConfigKind>,
}

impl ConfigAttributes {
    /// No driver chosen yet.
    pub fn new() -> (r: Self)
        ensures
            r.kind is None,
    {
        ConfigAttributes { kind: None }
    }

    /// Takes one parameter of the attribute, given as its identifier (`None` when it is not a
    /// plain identifier).
    ///
    /// A driver name selects that driver; anything else is refused with a message that lists
    /// the supported names. A second driver name is not allowed: a separate function is
    /// required for each configuration.
    pub fn parse(&mut self, param: Option<&str>) -> (r: Result<(), String>)
        requires
            config_kind_named(opt_view(param)) is Some ==> old(self).kind is None,
        ensures
            match config_kind_named(opt_view(param)) {
                Some(k) => r is Ok && final(self).kind == Some(k),
                None => r matches Err(msg) && msg@ == unsupported_parameter_message()
                    && final(self).kind == old(self).kind,
            },
    {
        let kinds = ConfigKind::all();
        proof { reveal_strlit("network"); reveal_strlit("usb"); }
        let mut i: usize = 0;
        while i < kinds.len()
            invariant
                kinds@ == ConfigKind::spec_all(),
                i <= kinds@.len(),
                self.kind == old(self).kind,
                forall|k: int| 0 <= k < i ==> opt_view(param) != Some(kinds@[k].spec_name()),
            decreases kinds@.len() - i,
        {
            let name = kinds[i].as_name();
            if let Some(p) = param {
                if str_eq(p, name) {
                    self.kind = Some(kinds[i]);
                    return Ok(());
                }
            }
            i = i + 1;
        }
        assert(config_kind_named(opt_view(param)) is None) by {
            assert(opt_view(param) != Some(kinds@[0].spec_name()));
            assert(opt_view(param) != Some(kinds@[1].spec_name()));
        }
        let mut names: Vec<&str> = Vec::new();
        let mut j: usize = 0;
        while j < kinds.len()
            invariant
                kinds@ == ConfigKind::spec_all(),
                j <= kinds@.len(),
                names@.map_values(|n: &str| n@) =~= config_names(kinds@.take(j as int)),
            decreases kinds@.len() - j,
        {
            let ghost before = names@;
            let name = kinds[j].as_name();
            names.push(name);
            assert(names@.map_values(|n: &str| n@) =~= before.map_values(|n: &str| n@).push(name@));
            assert(kinds@.take(j + 1) =~= kinds@.take(j as int).push(kinds@[j as int]));
            assert(config_names(kinds@.take(j + 1)) =~= config_names(kinds@.take(j as int)).push(
                kinds@[j as int].spec_name(),
            ));
            j = j + 1;
        }
        assert(kinds@.take(kinds@.len() as int) =~= kinds@);
        let mut msg = String::from_str("unsupported parameter (");
        let list = backquoted_list(&names);
        msg.append(list.as_str());
        msg.append(" are supported)");
        Err(msg)
    }

    /// Returns the name of the configuration function and the path of its type, for the
    /// driver chosen (a driver must have been chosen).
    pub fn config_target(&self, riot_rs_crate: Option<&str>) -> (r: (&'static str, String))
        requires
            self.kind is Some,
        ensures
            r.0@ == self.kind->0.spec_config_fn_name(),
            r.1@ == match riot_rs_crate {
                Some(c) => c@ + self.kind->0.spec_config_type_suffix(),
                None => self.kind->0.spec_config_type_suffix(),
            },
    {
        match self.kind {
            Some(k) => (k.config_fn_name(), k.config_type_path(riot_rs_crate)),
            None => ("", String::new()),
        }
    }
}

/// What `str::to_uppercase` returns for a string: its Unicode uppercase mapping.
pub uninterp spec fn spec_to_uppercase(s: Seq<char>) -> Seq<char>;

/// `s` holds ASCII characters only.
pub open spec fn spec_is_ascii(s: Seq<char>) -> bool {
    forall|i: int| 0 <= i < s.len() ==> (#[trigger] s[i] as u32) < 128
}

/// The uppercase of an ASCII character: `a` to `z` become `A` to `Z`, the others stay.
pub open spec fn spec_ascii_upper_char(c: char) -> char {
    if 'a' <= c && c <= 'z' {
        ((c as u32) - 32) as char
    } else {
        c
    }
}

/// The uppercase of an ASCII string, character by character.
pub open spec fn spec_ascii_upper(s: Seq<char>) -> Seq<char> {
    s.map_values(|c: char| spec_ascii_upper_char(c))
}

/// Calls `str::to_uppercase`: the result is the Unicode uppercase mapping of the argument,
/// which depends on the argument alone; on ASCII text that mapping turns `a` to `z` into `A`
/// to `Z` and leaves every other character as it is.
#[verifier::external_body]
fn str_to_uppercase(s: &str) -> (r: String)
    ensures
        r@ == spec_to_uppercase(s@),
        spec_is_ascii(s@) ==> r@ == spec_ascii_upper(s@),
{
    s.to_uppercase()
}

/// A hook through which an application adjusts a system driver before it is built.
#[derive(Debug, Copy, Clone, PartialEq, Eq, Structural)]
pub enum Hook {
    UsbBuilder,
}

impl Hook {
    /// The parameter of the entry point attribute that enables the hook.
    pub open spec fn spec_param_name(self) -> Seq<char> {
        match self {
            Hook::UsbBuilder => "usb_builder_hook"@,
        }
    }

    /// The type of the hook.
    pub open spec fn spec_type_name(self) -> Seq<char> {
        match self {
            Hook::UsbBuilder => "UsbBuilderHook"@,
        }
    }

    /// The name of the static holding the hook: its parameter in upper case.
    pub open spec fn spec_delegate_ident(self) -> Seq<char> {
        match self {
            Hook::UsbBuilder => "USB_BUILDER_HOOK"@,
        }
    }

    /// All the hooks, in the order they run at system initialization.
    pub open spec fn spec_all() -> Seq<Hook> {
        seq![Hook::UsbBuilder]
    }

    /// Returns all the hooks, in the order they run at system initialization.
    pub fn all() -> (r: Vec<Hook>)
        ensures
            r@ == Self::spec_all(),
    {
        let r = vec![Hook::UsbBuilder];
        assert(r@ =~= Self::spec_all());
        r
    }

    /// Returns the parameter of the entry point attribute that enables the hook.
    pub fn param_name(&self) -> (r: &'static str)
        ensures
            r@ == self.spec_param_name(),
    {
        match self {
            Self::UsbBuilder => "usb_builder_hook",
        }
    }

    /// Returns the type of the hook.
    pub fn hook_type_name(&self) -> (r: &'static str)
        ensures
            r@ == self.spec_type_name(),
    {
        match self {
            Self::UsbBuilder => "UsbBuilderHook",
        }
    }

    /// Returns the name of the static holding the hook: its parameter in upper case.
    pub fn delegate_ident(&self) -> (r: String)
        ensures
            r@ == spec_to_uppercase(self.spec_param_name()),
            r@ == self.spec_delegate_ident(),
    {
        let name = self.param_name();
        proof {
            reveal_strlit("usb_builder_hook");
            reveal_strlit("USB_BUILDER_HOOK");
            assert(spec_is_ascii(name@));
            assert(spec_ascii_upper(name@) =~= self.spec_delegate_ident());
        }
        str_to_uppercase(name)
    }

    /// Returns the name of the static that registers the hook.
    pub fn delegate_ref_ident(&self) -> (r: String)
        ensures
            r@ == spec_to_uppercase(self.spec_param_name()) + "_REF"@,
            r@ == self.spec_delegate_ident() + "_REF"@,
    {
        let mut r = self.delegate_ident();
        r.append("_REF");
        r
    }

    /// Returns the list of the hook parameters, back-quoted and separated by `, `.
    pub fn format_list() -> (r: String)
        ensures
            r@ == spec_backquoted_list(hook_names(Self::spec_all())),
    {
        let hooks = Self::all();
        let mut names: Vec<&str> = Vec::new();
        let mut j: usize = 0;
        while j < hooks.len()
            invariant
                hooks@ == Self::spec_all(),
                j <= hooks@.len(),
                names@.map_values(|n: &str| n@) =~= hook_names(hooks@.take(j as int)),
            decreases hooks@.len() - j,
        {
            let ghost before = names@;
            let name = hooks[j].param_name();
            names.push(name);
            assert(names@.map_values(|n: &str| n@) =~= before.map_values(|n: &str| n@).push(name@));
            assert(hooks@.take(j + 1) =~= hooks@.take(j as int).push(hooks@[j as int]));
            assert(hook_names(hooks@.take(j + 1)) =~= hook_names(hooks@.take(j as int)).push(
                hooks@[j as int].spec_param_name(),
            ));
            j = j + 1;
        }
        assert(hooks@.take(hooks@.len() as int) =~= hooks@);
        backquoted_list(&names)
    }
}

/// The parameters of `hooks`.
pub open spec fn hook_names(hooks: Seq<Hook>) -> Seq<Seq<char>> {
    hooks.map_values(|h: Hook| h.spec_param_name())
}

/// The message for a refused parameter of the entry point attribute.
pub open spec fn unsupported_hook_message() -> Seq<char> {
    "unsupported hook ("@ + spec_backquoted_list(hook_names(Hook::spec_all()))
        + " are supported)"@
}

/// Parameters of the entry point attribute: the hooks enabled, in order.
pub struct MainAttributes {
    pub hooks: Vec<Hook>,
}

impl MainAttributes {
    /// No hook enabled.
    pub fn new() -> (r: Self)
        ensures
            r.hooks@ == Seq::<Hook>::empty(),
    {
        MainAttributes { hooks: Vec::new() }
    }

    /// Takes one parameter of the attribute, given as its identifier (`None` when it is not a
    /// plain identifier): a hook parameter enables the hook, anything else is refused with a
    /// message that lists the supported hooks.
    pub fn parse(&mut self, param: Option<&str>) -> (r: Result<(), String>)
        ensures
            if opt_view(param) == Some(Hook::UsbBuilder.spec_param_name()) {
                r is Ok && final(self).hooks@ == old(self).hooks@.push(Hook::UsbBuilder)
            } else {
                r matches Err(msg) && msg@ == unsupported_hook_message() && final(self).hooks@
                    == old(self).hooks@
            },
    {
        let hooks = Hook::all();
        let mut i: usize = 0;
        while i < hooks.len()
            invariant
                hooks@ == Hook::spec_all(),
                i <= hooks@.len(),
                i == 0 ==> self.hooks@ == old(self).hooks@,
                i == 1 ==> self.hooks@ == old(self).hooks@.push(Hook::UsbBuilder) && opt_view(
                    param,
                ) == Some(Hook::UsbBuilder.spec_param_name()),
            decreases hooks@.len() - i,
        {
            let kind = hooks[i];
            let matched = match param {
                Some(p) => str_eq(p, kind.param_name()),
                None => false,
            };
            if matched {
                self.hooks.push(kind);
            } else {
                let mut msg = String::from_str("unsupported hook (");
                let list = Hook::format_list();
                msg.append(list.as_str());
                msg.append(" are supported)");
                return Err(msg);
            }
            i = i + 1;
        }
        Ok(())
    }
}

/// Returns the hooks among `definitions` that the attribute enables, in the order of
/// `definitions`.
pub fn enabled_hooks(definitions: &Vec<Hook>, attrs: &MainAttributes) -> (r: Vec<Hook>)
    ensures
        r@ == definitions@.filter(|h: Hook| attrs.hooks@.contains(h)),
{
    let ghost f = |h: Hook| attrs.hooks@.contains(h);
    let mut r: Vec<Hook> = Vec::new();
    let mut i: usize = 0;
    while i < definitions.len()
        invariant
            i <= definitions@.len(),
            f == (|h: Hook| attrs.hooks@.contains(h)),
            r@ == definitions@.take(i as int).filter(f),
        decreases definitions@.len() - i,
    {
        let h = definitions[i];
        let mut found = false;
        let mut j: usize = 0;
        while j < attrs.hooks.len()
            invariant
                j <= attrs.hooks@.len(),
                found == exists|k: int| 0 <= k < j && attrs.hooks@[k] == h,
            decreases attrs.hooks@.len() - j,
        {
            if attrs.hooks[j] == h {
                found = true;
            }
            j = j + 1;
        }
        proof {
            reveal_with_fuel(Seq::<_>::filter, 1);
            assert(definitions@.take(i + 1).drop_last() =~= definitions@.take(i as int));
            if found {
                let k = choose|k: int| 0 <= k < j && attrs.hooks@[k] == h;
                assert(attrs.hooks@.contains(h));
            } else {
                assert(!attrs.hooks@.contains(h));
            }
        }
        if found {
            r.push(h);
        }
        i = i + 1;
    }
    assert(definitions@.take(definitions@.len() as int) =~= definitions@);
    r
}

} // verus!
