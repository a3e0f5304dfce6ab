use vstd::prelude::*;

verus! {

/// The platform family the shell is built for.
#[derive(Clone, Copy, Debug, PartialEq, Eq, Structural)]
pub enum Platform {
    /// macOS: the one platform whose window receives native cosmetics.
    MacOs,
    /// Every other platform the host framework supports.
    Other,
}

impl Platform {
    /// Whether the main window on this platform is dressed natively: an
    /// overlay title bar and a tinted background.
    pub open spec fn has_native_cosmetics(self) -> bool {
        self is MacOs
    }

    /// Executable form of [`Platform::has_native_cosmetics`].
    pub fn native_cosmetics(self) -> (dressed: bool)
        ensures
            dressed == self.has_native_cosmetics(),
    {
        match self {
            Platform::MacOs => true,
            Platform::Other => false,
        }
    }
}

} // verus!
