use vstd::prelude::*;

verus! {

/// Graphics backend that the engine renders with.
#[derive(Copy, Clone, Debug, PartialEq, Eq, Structural)]
pub enum GfxLayer {
    Auto,
    Cpu,
    SkiaCpu,
    SkiaOpenGl,
}

impl GfxLayer {
    /// The engine's numeric code for this backend.
    pub open spec fn code(self) -> u32 {
        match self {
            GfxLayer::Auto => 0xFFFF,
            GfxLayer::Cpu => 1,
            GfxLayer::SkiaCpu => 4,
            GfxLayer::SkiaOpenGl => 5,
        }
    }

    pub fn engine_code(&self) -> (r: u32)
        ensures
            r == self.code(),
    {
        match self {
            GfxLayer::Auto => 0xFFFF,
            GfxLayer::Cpu => 1,
            GfxLayer::SkiaCpu => 4,
            GfxLayer::SkiaOpenGl => 5,
        }
    }
}

/// Where the engine's native library lives on disk.
pub struct Library {
    pub path: String,
}

impl Library {
    /// The library bundled with this crate, once it has been extracted to
    /// disk: `extracted` is the path it was extracted to, if extraction
    /// succeeded.
    pub fn bundled(extracted: Option<String>) -> (r: Result<Library, &'static str>)
        ensures
            extracted matches Some(p) ==> (r matches Ok(l) && l.path@ == p@),
            extracted is None ==> r == Err::<Library, &'static str>("Couldn't extract sciter"),
    {
        match extracted {
            Some(path) => Ok(Library { path }),
            None => Err("Couldn't extract sciter"),
        }
    }

    /// A library at `path`.
    pub fn path(path: &str) -> (r: Library)
        ensures
            r.path@ == path@,
    {
        Library { path: path.to_owned() }
    }
}

/// The process-wide, one-time loading of the engine library. `initialize`
/// is idempotent: exactly one call, the first, is told to do the work.
pub struct Runtime {
    initialized: bool,
}

impl Runtime {
    /// Whether the engine library has been loaded.
    pub closed spec fn spec_initialized(&self) -> bool {
        self.initialized
    }

    /// A process in which the engine library is not loaded yet.
    pub fn new() -> (r: Runtime)
        ensures
            !r.spec_initialized(),
    {
        Runtime { initialized: false }
    }

    /// Whether the engine library has been loaded.
    pub fn is_initialized(&self) -> (r: bool)
        ensures
            r == self.spec_initialized(),
    {
        self.initialized
    }

    /// Marks the engine library as loaded, and tells whether this call is
    /// the first, the one that is to load it.
    pub fn initialize(&mut self) -> (r: bool)
        ensures
            final(self).spec_initialized(),
            r == !old(self).spec_initialized(),
    {
        let first = !self.initialized;
        self.initialized = true;
        first
    }
}

} // verus!
