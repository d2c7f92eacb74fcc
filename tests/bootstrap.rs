use bootstrap::builder::AppBuilder;
use bootstrap::lifecycle::{failure_message, Action, Bootstrap, Event, Phase, RUN_FAILURE_MESSAGE};
use bootstrap::plugins::{plugin_list, Plugin, TargetOs, Variant};

const DESKTOPS: [TargetOs; 4] = [TargetOs::Linux, TargetOs::Macos, TargetOs::Windows, TargetOs::Other];
const MOBILES: [TargetOs; 2] = [TargetOs::Android, TargetOs::Ios];

#[test]
fn mobile_targets_are_android_and_ios() {
    for t in DESKTOPS {
        assert!(!t.is_mobile());
    }
    for t in MOBILES {
        assert!(t.is_mobile());
    }
}

#[test]
fn global_shortcut_only_on_desktop() {
    for v in [Variant::Core, Variant::WithLinks] {
        for t in DESKTOPS {
            assert!(plugin_list(v, t).contains(&Plugin::GlobalShortcut));
        }
        for t in MOBILES {
            assert!(!plugin_list(v, t).contains(&Plugin::GlobalShortcut));
        }
    }
}

#[test]
fn core_desktop_list_in_order() {
    assert_eq!(
        plugin_list(Variant::Core, TargetOs::Linux),
        vec![
            Plugin::ClipboardManager,
            Plugin::Notification,
            Plugin::Dialog,
            Plugin::Fs,
            Plugin::Shell,
            Plugin::GlobalShortcut,
        ]
    );
}

#[test]
fn linked_mobile_list_in_order() {
    assert_eq!(
        plugin_list(Variant::WithLinks, TargetOs::Android),
        vec![
            Plugin::ClipboardManager,
            Plugin::Notification,
            Plugin::Dialog,
            Plugin::Fs,
            Plugin::Shell,
            Plugin::DeepLink,
            Plugin::Opener,
        ]
    );
}

#[test]
fn plugin_counts_per_variant_and_target() {
    for t in DESKTOPS {
        assert_eq!(AppBuilder::for_target(Variant::Core, t).len(), 6);
        assert_eq!(AppBuilder::for_target(Variant::WithLinks, t).len(), 8);
    }
    for t in MOBILES {
        assert_eq!(AppBuilder::for_target(Variant::Core, t).len(), 5);
        assert_eq!(AppBuilder::for_target(Variant::WithLinks, t).len(), 7);
    }
}

#[test]
fn registration_order_does_not_change_the_set() {
    let forward = plugin_list(Variant::WithLinks, TargetOs::Windows);
    let mut backward = forward.clone();
    backward.reverse();
    backward.push(Plugin::Fs);
    let mut a = AppBuilder::new();
    a.plugins_from(&forward);
    let mut b = AppBuilder::new();
    b.plugins_from(&backward);
    assert_eq!(a.len(), 8);
    assert_eq!(b.len(), 8);
    for p in forward.iter() {
        assert!(a.has(*p));
        assert!(b.has(*p));
    }
}

#[test]
fn plugin_is_attached_at_most_once() {
    let mut b = AppBuilder::new();
    assert!(b.plugin(Plugin::Shell));
    assert!(b.plugin(Plugin::Dialog));
    assert!(!b.plugin(Plugin::Shell));
    assert_eq!(b.registered(), vec![Plugin::Shell, Plugin::Dialog]);
    assert!(!b.has(Plugin::Opener));
}

#[test]
fn empty_builder_has_nothing() {
    let b = AppBuilder::new();
    assert_eq!(b.len(), 0);
    assert!(b.registered().is_empty());
}

#[test]
fn run_failure_aborts_with_diagnostic() {
    let mut boot = Bootstrap::new(Variant::WithLinks, TargetOs::Linux);
    assert_eq!(boot.phase(), Phase::Initializing);
    assert_eq!(boot.handle(Event::HandOff), Action::StartRunLoop);
    assert_eq!(boot.phase(), Phase::Running);
    assert_eq!(boot.handle(Event::RunFailed), Action::Abort);
    assert_eq!(boot.phase(), Phase::Aborted);
    assert_eq!(failure_message(), "error while running tauri application");
    assert_eq!(RUN_FAILURE_MESSAGE, "error while running tauri application");
}

#[test]
fn nothing_happens_after_abort() {
    let mut boot = Bootstrap::new(Variant::Core, TargetOs::Macos);
    boot.handle(Event::HandOff);
    boot.handle(Event::RunFailed);
    let before = boot.registered();
    for ev in [
        Event::Register(Plugin::Opener),
        Event::HandOff,
        Event::RunFailed,
        Event::RunEnded,
    ] {
        assert_eq!(boot.handle(ev), Action::Nothing);
        assert_eq!(boot.phase(), Phase::Aborted);
    }
    assert_eq!(boot.registered(), before);
}

#[test]
fn run_outcome_maps_to_action() {
    let mut ok = Bootstrap::new(Variant::Core, TargetOs::Linux);
    ok.handle(Event::HandOff);
    assert_eq!(ok.run_returned(&Ok::<(), String>(())), Action::Exit);
    assert_eq!(ok.phase(), Phase::Exited);

    let mut failed = Bootstrap::new(Variant::Core, TargetOs::Linux);
    failed.handle(Event::HandOff);
    assert_eq!(failed.run_returned(&Err::<(), String>("no display".to_string())), Action::Abort);
    assert_eq!(failed.phase(), Phase::Aborted);
}

#[test]
fn registration_only_while_initializing() {
    let mut boot = Bootstrap::empty();
    assert_eq!(boot.handle(Event::Register(Plugin::Fs)), Action::Nothing);
    assert_eq!(boot.handle(Event::Register(Plugin::Fs)), Action::Nothing);
    assert_eq!(boot.registered(), vec![Plugin::Fs]);
    assert_eq!(boot.handle(Event::RunEnded), Action::Nothing);
    assert_eq!(boot.phase(), Phase::Initializing);
    boot.handle(Event::HandOff);
    assert_eq!(boot.handle(Event::Register(Plugin::Shell)), Action::Nothing);
    assert_eq!(boot.registered(), vec![Plugin::Fs]);
    assert_eq!(boot.handle(Event::HandOff), Action::Nothing);
    assert_eq!(boot.handle(Event::RunEnded), Action::Exit);
    assert_eq!(boot.handle(Event::RunFailed), Action::Nothing);
    assert_eq!(boot.phase(), Phase::Exited);
}
