//! What the host application registers at startup, before the sidecar is
//! started.
use vstd::prelude::*;

verus! {

/// A framework plugin that the host registers.
#[derive(Clone, Copy, Debug, PartialEq, Eq, Structural)]
pub enum Plugin {
    /// Logging at the informational level and above.
    Log,
    /// Native dialogs.
    Dialog,
    /// Process spawning, needed for the sidecar.
    Shell,
}

/// The plugins registered at startup, in order: logging only in a debug
/// build, then dialogs, then the shell.
pub open spec fn planned_plugins(debug: bool) -> Seq<Plugin> {
    if debug {
        seq![Plugin::Log, Plugin::Dialog, Plugin::Shell]
    } else {
        seq![Plugin::Dialog, Plugin::Shell]
    }
}

/// The plugins to register at startup, in order, for a debug build or not.
pub fn plugins(debug: bool) -> (r: Vec<Plugin>)
    ensures
        r@ == planned_plugins(debug),
{
    let mut r: Vec<Plugin> = Vec::new();
    if debug {
        r.push(Plugin::Log);
    }
    r.push(Plugin::Dialog);
    r.push(Plugin::Shell);
    proof {
        if debug {
            assert(r@ =~= seq![Plugin::Log, Plugin::Dialog, Plugin::Shell]);
        } else {
            assert(r@ =~= seq![Plugin::Dialog, Plugin::Shell]);
        }
    }
    r
}

} // verus!
