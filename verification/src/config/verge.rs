use vstd::prelude::*;

verus! {

/// The switches that are set from outside and that the built-in steps read.
#[derive(Debug, Clone, Copy, PartialEq, Eq, Structural)]
pub struct IVerge {
    /// Whether the tunnel device is wanted; unset counts as off.
    pub enable_tun_mode: Option<bool>,
}

impl IVerge {
    /// No switch is set.
    pub fn new() -> (r: IVerge)
        ensures
            r.enable_tun_mode is None,
    {
        IVerge { enable_tun_mode: None }
    }

    /// Whether the tunnel device is switched on.
    pub open spec fn tun_enabled(&self) -> bool {
        self.enable_tun_mode == Some(true)
    }

    /// Whether the tunnel device is switched on.
    pub fn tun_mode(&self) -> (b: bool)
        ensures
            b == self.tun_enabled(),
    {
        match self.enable_tun_mode {
            Some(enabled) => enabled,
            None => false,
        }
    }
}

} // verus!
