use riot_rs::attributes::{enabled_hooks, ConfigAttributes, ConfigKind, Hook, MainAttributes};
use riot_rs::entry::{generate_delegates, main_call, spawner_call, EntryCall};

#[test]
fn config_attribute_selects_one_driver() {
    let mut a = ConfigAttributes::new();
    assert_eq!(a.parse(Some("usb")), Ok(()));
    assert_eq!(a.kind, Some(ConfigKind::Usb));
    let (f, t) = a.config_target(Some("riot_rs"));
    assert_eq!(f, "riot_rs_usb_config");
    assert_eq!(t, "riot_rs::embassy::embassy_usb::Config<'static>");
    let mut b = ConfigAttributes::new();
    assert_eq!(b.parse(Some("network")), Ok(()));
    let (f, t) = b.config_target(None);
    assert_eq!(f, "riot_rs_network_config");
    assert_eq!(t, "::embassy::embassy_net::Config");
}

#[test]
fn config_attribute_refuses_unknown_parameters() {
    let mut a = ConfigAttributes::new();
    assert_eq!(a.parse(Some("wifi")), Err("unsupported parameter (`network`, `usb` are supported)".to_string()));
    assert_eq!(a.parse(None), Err("unsupported parameter (`network`, `usb` are supported)".to_string()));
    assert_eq!(a.kind, None);
}

#[test]
fn config_kind_names() {
    assert_eq!(ConfigKind::Network.as_name(), "network");
    assert_eq!(ConfigKind::all(), vec![ConfigKind::Network, ConfigKind::Usb]);
    assert_eq!(ConfigKind::Usb.config_fn_name(), "riot_rs_usb_config");
}

#[test]
fn hooks() {
    assert_eq!(Hook::UsbBuilder.param_name(), "usb_builder_hook");
    assert_eq!(Hook::UsbBuilder.hook_type_name(), "UsbBuilderHook");
    assert_eq!(Hook::UsbBuilder.delegate_ident(), "USB_BUILDER_HOOK");
    assert_eq!(Hook::UsbBuilder.delegate_ref_ident(), "USB_BUILDER_HOOK_REF");
    assert_eq!(Hook::format_list(), "`usb_builder_hook`");
}

#[test]
fn main_attribute_enables_hooks() {
    let mut a = MainAttributes::new();
    assert_eq!(a.parse(Some("usb_builder_hook")), Ok(()));
    assert_eq!(a.hooks, vec![Hook::UsbBuilder]);
    assert_eq!(a.parse(Some("other")), Err("unsupported hook (`usb_builder_hook` are supported)".to_string()));
    assert_eq!(a.hooks, vec![Hook::UsbBuilder]);
    assert_eq!(enabled_hooks(&Hook::all(), &a), vec![Hook::UsbBuilder]);
    assert!(enabled_hooks(&Hook::all(), &MainAttributes::new()).is_empty());
}

#[test]
fn delegates_for_enabled_hooks() {
    let mut a = MainAttributes::new();
    assert!(generate_delegates(&Hook::all(), &a).is_empty());
    a.parse(Some("usb_builder_hook")).unwrap();
    let d = generate_delegates(&Hook::all(), &a);
    assert_eq!(d.len(), 1);
    assert_eq!(d[0].hook, Hook::UsbBuilder);
    assert_eq!(d[0].delegate_ident, "USB_BUILDER_HOOK");
    assert_eq!(d[0].registration_ident, "USB_BUILDER_HOOK_REF");
    assert_eq!(d[0].hook_type, "UsbBuilderHook");
}

#[test]
fn entry_calls() {
    assert_eq!(spawner_call(1, false), EntryCall { spawned_as_task: false, takes_peripherals: false });
    assert_eq!(spawner_call(2, false), EntryCall { spawned_as_task: false, takes_peripherals: true });
    assert_eq!(main_call(0, true), EntryCall { spawned_as_task: true, takes_peripherals: false });
    assert_eq!(main_call(1, true), EntryCall { spawned_as_task: true, takes_peripherals: true });
    assert_eq!(main_call(1, false), EntryCall { spawned_as_task: false, takes_peripherals: false });
    assert_eq!(main_call(2, false), EntryCall { spawned_as_task: false, takes_peripherals: true });
}
