//! The capability plugins, the target operating systems and the fixed
//! registration list.
use vstd::prelude::*;

verus! {

/// A capability module that bridges native functionality to the frontend.
#[derive(Clone, Copy, Debug, PartialEq, Eq, Structural)]
pub enum Plugin {
    ClipboardManager,
    Notification,
    Dialog,
    Fs,
    Shell,
    DeepLink,
    Opener,
    GlobalShortcut,
}

/// The operating system that the application is built for.
#[derive(Clone, Copy, Debug, PartialEq, Eq, Structural)]
pub enum TargetOs {
    Linux,
    Macos,
    Windows,
    Android,
    Ios,
    /// Any other operating system; it counts as a desktop one.
    Other,
}

/// Which set of plugins the application ships with.
#[derive(Clone, Copy, Debug, PartialEq, Eq, Structural)]
pub enum Variant {
    /// Clipboard, notifications, dialogs, file system and shell.
    Core,
    /// The core set plus deep links and the default opener.
    WithLinks,
}

impl TargetOs {
    /// The two mobile operating systems.
    pub open spec fn spec_is_mobile(self) -> bool {
        self is Android || self is Ios
    }

    pub fn is_mobile(&self) -> (r: bool)
        ensures
            r == self.spec_is_mobile(),
    {
        match self {
            TargetOs::Android | TargetOs::Ios => true,
            _ => false,
        }
    }
}

/// The plugins that every build attaches, in registration order.
pub open spec fn spec_core_plugins() -> Seq<Plugin> {
    seq![Plugin::ClipboardManager, Plugin::Notification, Plugin::Dialog, Plugin::Fs, Plugin::Shell]
}

/// The plugins of a variant that do not depend on the target.
pub open spec fn spec_variant_plugins(variant: Variant) -> Seq<Plugin> {
    match variant {
        Variant::Core => spec_core_plugins(),
        Variant::WithLinks => spec_core_plugins().push(Plugin::DeepLink).push(Plugin::Opener),
    }
}

/// The full registration list: the variant's plugins, then global shortcuts
/// on every target that is not mobile.
pub open spec fn spec_plugin_list(variant: Variant, target: TargetOs) -> Seq<Plugin> {
    if target.spec_is_mobile() {
        spec_variant_plugins(variant)
    } else {
        spec_variant_plugins(variant).push(Plugin::GlobalShortcut)
    }
}

/// The registration list for a variant and a target, in order.
pub fn plugin_list(variant: Variant, target: TargetOs) -> (r: Vec<Plugin>)
    ensures
        r@ == spec_plugin_list(variant, target),
{
    let mut r: Vec<Plugin> = Vec::new();
    r.push(Plugin::ClipboardManager);
    r.push(Plugin::Notification);
    r.push(Plugin::Dialog);
    r.push(Plugin::Fs);
    r.push(Plugin::Shell);
    if variant == Variant::WithLinks {
        r.push(Plugin::DeepLink);
        r.push(Plugin::Opener);
    }
    if !target.is_mobile() {
        r.push(Plugin::GlobalShortcut);
    }
    assert(r@ =~= spec_plugin_list(variant, target));
    r
}

/// No plugin stands twice in a registration list.
pub proof fn lemma_plugin_list_distinct(variant: Variant, target: TargetOs)
    ensures
        spec_plugin_list(variant, target).no_duplicates(),
{
    let s = spec_plugin_list(variant, target);
    assert forall|i: int, j: int| 0 <= i < s.len() && 0 <= j < s.len() && i != j implies s[i]
        != s[j] by {
        assert(0 <= i < 8 && 0 <= j < 8);
    }
}

/// Global shortcuts are attached exactly on the targets that are not mobile,
/// whatever the variant.
pub proof fn lemma_global_shortcut_desktop_only(variant: Variant, target: TargetOs)
    ensures
        spec_plugin_list(variant, target).contains(Plugin::GlobalShortcut) <==> !target.spec_is_mobile(),
{
    let s = spec_plugin_list(variant, target);
    if target.spec_is_mobile() {
        assert(!s.contains(Plugin::GlobalShortcut)) by {
            assert forall|i: int| 0 <= i < s.len() implies s[i] != Plugin::GlobalShortcut by {
                assert(0 <= i < 7);
            }
        }
    } else {
        assert(s[s.len() - 1] == Plugin::GlobalShortcut);
    }
}

/// A desktop build attaches six plugins in the core variant and eight with
/// links; a mobile build attaches one fewer in each, all of them distinct.
pub proof fn lemma_plugin_count(variant: Variant, target: TargetOs)
    ensures
        spec_plugin_list(variant, target).to_set().len() == (match variant {
            Variant::Core => 6nat,
            Variant::WithLinks => 8nat,
        }) - (if target.spec_is_mobile() { 1nat } else { 0nat }),
{
    lemma_plugin_list_distinct(variant, target);
    spec_plugin_list(variant, target).unique_seq_to_set();
}

} // verus!
