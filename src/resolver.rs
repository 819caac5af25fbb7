use crate::failure::{TetherErrorKind, TetherFailure};
use vstd::prelude::*;
use vstd::string::StringExecFns;
use vstd::utf8::encode_utf8;

verus! {

/// Capacity, in UTF-16 units and counting the terminating NUL, of the
/// platform's path buffers. A path must be strictly shorter.
pub const MAX_PATH: u32 = 260;

/// The path separator `\` as one UTF-16 unit.
pub const PATH_SEPARATOR: u16 = 0x5C;

/// What the platform is to do next for a resolution in progress, or how it
/// ended. `H` is the platform's handle of a loaded library and `A` the
/// address of an export; neither is looked into here.
pub enum TetherStep<H, A> {
    /// Load the library at `path`: an absolute path, NUL-terminated.
    LoadLibrary { path: Vec<u16> },
    /// Look up the export `name` (NUL-terminated bytes) in `module`.
    FindExport { module: H, name: Vec<u8> },
    /// The entry point that was found.
    Resolved(A),
    Failed(TetherFailure),
}

/// The mathematical form of a [`TetherStep`].
pub enum StepView<H, A> {
    LoadLibrary(Seq<u16>),
    FindExport(H, Seq<u8>),
    Resolved(A),
    Failed((TetherErrorKind, Option<Seq<char>>)),
}

impl<H, A> View for TetherStep<H, A> {
    type V = StepView<H, A>;

    open spec fn view(&self) -> StepView<H, A> {
        match self {
            TetherStep::LoadLibrary { path } => StepView::LoadLibrary(path@),
            TetherStep::FindExport { module, name } => StepView::FindExport(*module, name@),
            TetherStep::Resolved(a) => StepView::Resolved(*a),
            TetherStep::Failed(f) => StepView::Failed(f@),
        }
    }
}

/// Each byte of a library name as one UTF-16 unit: for the ASCII names of
/// system libraries, the name's UTF-16 encoding.
pub open spec fn widen(bytes: Seq<u8>) -> Seq<u16> {
    Seq::new(bytes.len(), |i: int| bytes[i] as u16)
}

/// The absolute path of `library` in `directory`, NUL-terminated.
pub open spec fn library_path(directory: Seq<u16>, library: Seq<char>) -> Seq<u16> {
    directory + seq![PATH_SEPARATOR] + widen(encode_utf8(library)) + seq![0u16]
}

pub open spec fn no_directory_text() -> Seq<char> {
    "Couldn't get system directory."@
}

pub open spec fn directory_too_long_text() -> Seq<char> {
    "Buffer too small for system directory."@
}

pub open spec fn name_too_long_text() -> Seq<char> {
    "Buffer too small for module name."@
}

pub open spec fn load_failed_text(library: Seq<char>) -> Seq<char> {
    "Failed to load library "@ + library + " from the system directory."@
}

pub open spec fn encoding_failed_text() -> Seq<char> {
    "Failed to create procedure name string."@
}

pub open spec fn not_found_text(library: Seq<char>, export: Seq<char>) -> Seq<char> {
    "Failed to get address of "@ + export + " in "@ + library
}

/// The step after the platform wrote the system directory into `buffer`
/// and reported its length `len` (0 when it could not).
pub open spec fn directory_step<H, A>(buffer: Seq<u16>, len: u32, library: Seq<char>) -> StepView<H, A> {
    if len == 0 || len >= MAX_PATH {
        StepView::Failed((TetherErrorKind::SystemDirectoryUnavailable, Some(no_directory_text())))
    } else if len + 1 >= MAX_PATH {
        StepView::Failed((TetherErrorKind::PathBufferOverflow, Some(directory_too_long_text())))
    } else if len + 1 + encode_utf8(library).len() >= MAX_PATH {
        StepView::Failed((TetherErrorKind::PathBufferOverflow, Some(name_too_long_text())))
    } else {
        StepView::LoadLibrary(library_path(buffer.take(len as int), library))
    }
}

pub open spec fn has_nul(bytes: Seq<u8>) -> bool {
    exists|i: int| 0 <= i < bytes.len() && bytes[i] == 0
}

/// The step after the platform tried to load the library: `None` when the
/// loader refused it.
pub open spec fn load_step<H, A>(loaded: Option<H>, library: Seq<char>, export: Seq<char>) -> StepView<H, A> {
    match loaded {
        None => StepView::Failed((TetherErrorKind::LibraryLoadFailed, Some(load_failed_text(library)))),
        Some(module) => if has_nul(encode_utf8(export)) {
            StepView::Failed((TetherErrorKind::ExportNameEncodingFailed, Some(encoding_failed_text())))
        } else {
            StepView::FindExport(module, encode_utf8(export).push(0u8))
        },
    }
}

/// The step after the platform looked the export up: `None` when absent.
pub open spec fn lookup_step<H, A>(found: Option<A>, library: Seq<char>, export: Seq<char>) -> StepView<H, A> {
    match found {
        Some(entry) => StepView::Resolved(entry),
        None => StepView::Failed((TetherErrorKind::ExportNotFound, Some(not_found_text(library, export)))),
    }
}

/// How a whole resolution of `export` in `library` ends, given the
/// platform's answers: the directory it reported, whether the library at
/// the constructed path loaded, and whether the export was found there.
/// An answer that is never asked for plays no part.
pub open spec fn resolution<H, A>(
    buffer: Seq<u16>,
    len: u32,
    library: Seq<char>,
    export: Seq<char>,
    loaded: Option<H>,
    found: Option<A>,
) -> StepView<H, A> {
    match directory_step::<H, A>(buffer, len, library) {
        StepView::LoadLibrary(_) => match load_step::<H, A>(loaded, library, export) {
            StepView::FindExport(_, _) => lookup_step::<H, A>(found, library, export),
            other => other,
        },
        other => other,
    }
}

fn failure<H, A>(kind: TetherErrorKind, detail: String) -> (r: TetherStep<H, A>)
    ensures
        r@ == StepView::<H, A>::Failed((kind, Some(detail@))),
{
    TetherStep::Failed(TetherFailure { kind, detail: Some(detail) })
}

/// A zeroed buffer of `MAX_PATH` units for the platform to write the
/// system directory into.
pub fn system_directory_buffer() -> (r: Vec<u16>)
    ensures
        r@.len() == MAX_PATH,
        forall|i: int| 0 <= i < r@.len() ==> r@[i] == 0,
{
    let mut buffer: Vec<u16> = Vec::new();
    let mut i: u32 = 0;
    while i < MAX_PATH
        invariant
            i <= MAX_PATH,
            buffer@.len() == i,
            forall|k: int| 0 <= k < buffer@.len() ==> buffer@[k] == 0,
        decreases MAX_PATH - i,
    {
        buffer.push(0);
        i = i + 1;
    }
    buffer
}

/// First step of a resolution: checks what the platform reported of the
/// system directory and builds the absolute path of `library` in it, or
/// fails before anything is loaded.
pub fn on_system_directory<H, A>(buffer: &Vec<u16>, len: u32, library: &str) -> (r: TetherStep<H, A>)
    requires
        buffer@.len() == MAX_PATH,
    ensures
        r@ == directory_step::<H, A>(buffer@, len, library@),
{
    if len == 0 || len >= MAX_PATH {
        return failure(TetherErrorKind::SystemDirectoryUnavailable, String::from_str("Couldn't get system directory."));
    }
    if len + 1 >= MAX_PATH {
        return failure(TetherErrorKind::PathBufferOverflow, String::from_str("Buffer too small for system directory."));
    }
    let name = library.as_bytes();
    if name.len() >= (MAX_PATH - 1 - len) as usize {
        return failure(TetherErrorKind::PathBufferOverflow, String::from_str("Buffer too small for module name."));
    }
    let mut path: Vec<u16> = Vec::new();
    let mut i: usize = 0;
    while i < len as usize
        invariant
            i <= len < MAX_PATH,
            buffer@.len() == MAX_PATH,
            path@ == buffer@.take(i as int),
        decreases len - i,
    {
        path.push(buffer[i]);
        i = i + 1;
        assert(path@ =~= buffer@.take(i as int));
    }
    path.push(PATH_SEPARATOR);
    let ghost head = path@;
    let mut j: usize = 0;
    while j < name.len()
        invariant
            j <= name@.len(),
            head == buffer@.take(len as int) + seq![PATH_SEPARATOR],
            path@ == head + widen(name@.take(j as int)),
        decreases name@.len() - j,
    {
        path.push(name[j] as u16);
        j = j + 1;
        assert(path@ =~= head + widen(name@.take(j as int)));
    }
    path.push(0);
    assert(name@.take(name@.len() as int) =~= name@);
    assert(path@ =~= library_path(buffer@.take(len as int), library@));
    TetherStep::LoadLibrary { path }
}

/// Second step: the platform's answer to loading the library. On success,
/// the export's name is encoded for the lookup; a name holding a NUL
/// cannot be.
pub fn on_library_loaded<H, A>(loaded: Option<H>, library: &str, export: &str) -> (r: TetherStep<H, A>)
    ensures
        r@ == load_step::<H, A>(loaded, library@, export@),
{
    match loaded {
        None => {
            let mut detail = String::from_str("Failed to load library ");
            detail.append(library);
            detail.append(" from the system directory.");
            failure(TetherErrorKind::LibraryLoadFailed, detail)
        },
        Some(module) => {
            let bytes = export.as_bytes();
            let mut name: Vec<u8> = Vec::new();
            let mut i: usize = 0;
            while i < bytes.len()
                invariant
                    loaded == Some(module),
                    i <= bytes@.len(),
                    bytes@ == encode_utf8(export@),
                    name@ == bytes@.take(i as int),
                    forall|k: int| 0 <= k < i ==> bytes@[k] != 0,
                decreases bytes@.len() - i,
            {
                if bytes[i] == 0 {
                    assert(bytes@[i as int] == 0);
                    return failure(TetherErrorKind::ExportNameEncodingFailed, String::from_str("Failed to create procedure name string."));
                }
                name.push(bytes[i]);
                i = i + 1;
                assert(name@ =~= bytes@.take(i as int));
            }
            name.push(0);
            assert(bytes@.take(bytes@.len() as int) =~= bytes@);
            TetherStep::FindExport { module, name }
        },
    }
}

/// Last step: the platform's answer to looking the export up.
pub fn on_export_lookup<H, A>(found: Option<A>, library: &str, export: &str) -> (r: TetherStep<H, A>)
    ensures
        r@ == lookup_step::<H, A>(found, library@, export@),
{
    match found {
        Some(entry) => TetherStep::Resolved(entry),
        None => {
            let mut detail = String::from_str("Failed to get address of ");
            detail.append(export);
            detail.append(" in ");
            detail.append(library);
            failure(TetherErrorKind::ExportNotFound, detail)
        },
    }
}

} // verus!
