use vstd::prelude::*;

verus! {

/// Creation and behaviour flags of a window, one bit each.
#[derive(Clone, Copy, Debug, Default, PartialEq, Eq, Hash, Structural)]
pub struct WindowFlags(pub u32);

impl WindowFlags {
    /// No flag.
    #[allow(non_snake_case)]
    pub fn NONE() -> (f: WindowFlags)
        ensures
            f.0 == 0,
    {
        WindowFlags(0)
    }

    /// No decorations.
    #[allow(non_snake_case)]
    pub fn BORDERLESS() -> (f: WindowFlags)
        ensures
            f.0 == 1,
    {
        WindowFlags(1)
    }

    /// Kept above normal windows.
    #[allow(non_snake_case)]
    pub fn ALWAYS_ON_TOP() -> (f: WindowFlags)
        ensures
            f.0 == 2,
    {
        WindowFlags(2)
    }

    /// Has an alpha channel.
    #[allow(non_snake_case)]
    pub fn TRANSPARENT() -> (f: WindowFlags)
        ensures
            f.0 == 4,
    {
        WindowFlags(4)
    }

    /// Covers the whole output.
    #[allow(non_snake_case)]
    pub fn FULLSCREEN() -> (f: WindowFlags)
        ensures
            f.0 == 8,
    {
        WindowFlags(8)
    }

    /// Cannot be resized.
    #[allow(non_snake_case)]
    pub fn NO_RESIZE() -> (f: WindowFlags)
        ensures
            f.0 == 16,
    {
        WindowFlags(16)
    }

    /// Cannot be minimised.
    #[allow(non_snake_case)]
    pub fn NO_MINIMIZE() -> (f: WindowFlags)
        ensures
            f.0 == 32,
    {
        WindowFlags(32)
    }

    /// Cannot be maximised.
    #[allow(non_snake_case)]
    pub fn NO_MAXIMIZE() -> (f: WindowFlags)
        ensures
            f.0 == 64,
    {
        WindowFlags(64)
    }

    /// Cannot be closed by the user.
    #[allow(non_snake_case)]
    pub fn NO_CLOSE() -> (f: WindowFlags)
        ensures
            f.0 == 128,
    {
        WindowFlags(128)
    }

    /// Drawn below every other window.
    #[allow(non_snake_case)]
    pub fn BACKGROUND() -> (f: WindowFlags)
        ensures
            f.0 == 256,
    {
        WindowFlags(256)
    }

    /// Drawn above every other window.
    #[allow(non_snake_case)]
    pub fn OVERLAY() -> (f: WindowFlags)
        ensures
            f.0 == 512,
    {
        WindowFlags(512)
    }

    /// Blocks input to its parent.
    #[allow(non_snake_case)]
    pub fn MODAL() -> (f: WindowFlags)
        ensures
            f.0 == 1024,
    {
        WindowFlags(1024)
    }

    /// A splash screen.
    #[allow(non_snake_case)]
    pub fn SPLASH() -> (f: WindowFlags)
        ensures
            f.0 == 2048,
    {
        WindowFlags(2048)
    }

    /// Receives input even when unfocused.
    #[allow(non_snake_case)]
    pub fn ALWAYS_RECEIVE_INPUT() -> (f: WindowFlags)
        ensures
            f.0 == 4096,
    {
        WindowFlags(4096)
    }

    /// Not listed in the taskbar.
    #[allow(non_snake_case)]
    pub fn SKIP_TASKBAR() -> (f: WindowFlags)
        ensures
            f.0 == 8192,
    {
        WindowFlags(8192)
    }

    /// Never takes focus.
    #[allow(non_snake_case)]
    pub fn NO_FOCUS() -> (f: WindowFlags)
        ensures
            f.0 == 16384,
    {
        WindowFlags(16384)
    }

    /// Casts a shadow.
    #[allow(non_snake_case)]
    pub fn HAS_SHADOW() -> (f: WindowFlags)
        ensures
            f.0 == 32768,
    {
        WindowFlags(32768)
    }

    /// Whether any bit of `flag` is set.
    pub fn has(&self, flag: WindowFlags) -> (b: bool)
        ensures
            b == (self.0 & flag.0 != 0),
    {
        (self.0 & flag.0) != 0
    }

    /// The set with the bits of `flag` added.
    pub fn with(&self, flag: WindowFlags) -> (f: WindowFlags)
        ensures
            f.0 == self.0 | flag.0,
    {
        WindowFlags(self.0 | flag.0)
    }
    pub fn from_bits(bits: u32) -> (f: WindowFlags)
        ensures
            f.0 == bits,
    {
        WindowFlags(bits)
    }

    /// The set with the bits of `flag` removed.
    pub fn without(&self, flag: WindowFlags) -> (f: WindowFlags)
        ensures
            f.0 == self.0 & !flag.0,
    {
        WindowFlags(self.0 & !flag.0)
    }

    /// The set with the bits of `flag` flipped.
    pub fn toggle(&self, flag: WindowFlags) -> (f: WindowFlags)
        ensures
            f.0 == self.0 ^ flag.0,
    {
        WindowFlags(self.0 ^ flag.0)
    }

    pub fn bits(&self) -> (v: u32)
        ensures
            v == self.0,
    {
        self.0
    }

    pub fn is_background(&self) -> (b: bool)
        ensures
            b == (self.0 & 256 != 0),
    {
        self.has(WindowFlags::BACKGROUND())
    }

    pub fn is_overlay(&self) -> (b: bool)
        ensures
            b == (self.0 & 512 != 0),
    {
        self.has(WindowFlags::OVERLAY())
    }

    /// Whether the window gets a frame: it is not borderless.
    pub fn has_decorations(&self) -> (b: bool)
        ensures
            b == (self.0 & 1 == 0),
    {
        !self.has(WindowFlags::BORDERLESS())
    }
}

impl core::ops::BitOr for WindowFlags {
    type Output = WindowFlags;

    fn bitor(self, rhs: WindowFlags) -> (f: WindowFlags) {
        WindowFlags(self.0 | rhs.0)
    }
}

impl vstd::std_specs::ops::BitOrSpecImpl for WindowFlags {
    open spec fn obeys_bitor_spec() -> bool {
        true
    }

    open spec fn bitor_req(self, rhs: WindowFlags) -> bool {
        true
    }

    open spec fn bitor_spec(self, rhs: WindowFlags) -> WindowFlags {
        WindowFlags(self.0 | rhs.0)
    }
}

impl core::ops::BitAnd for WindowFlags {
    type Output = WindowFlags;

    fn bitand(self, rhs: WindowFlags) -> (f: WindowFlags) {
        WindowFlags(self.0 & rhs.0)
    }
}

impl vstd::std_specs::ops::BitAndSpecImpl for WindowFlags {
    open spec fn obeys_bitand_spec() -> bool {
        true
    }

    open spec fn bitand_req(self, rhs: WindowFlags) -> bool {
        true
    }

    open spec fn bitand_spec(self, rhs: WindowFlags) -> WindowFlags {
        WindowFlags(self.0 & rhs.0)
    }
}

impl core::ops::BitOrAssign for WindowFlags {
    fn bitor_assign(&mut self, rhs: WindowFlags) {
        self.0 = self.0 | rhs.0;
    }
}

impl core::ops::Not for WindowFlags {
    type Output = WindowFlags;

    fn not(self) -> (f: WindowFlags) {
        WindowFlags(!self.0)
    }
}

impl vstd::std_specs::ops::NotSpecImpl for WindowFlags {
    open spec fn obeys_not_spec() -> bool {
        true
    }

    open spec fn not_req(self) -> bool {
        true
    }

    open spec fn not_spec(self) -> WindowFlags {
        WindowFlags(!self.0)
    }
}

} // verus!
