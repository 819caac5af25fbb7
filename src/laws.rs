use crate::failure::TetherErrorKind;
use crate::resolver::{
    directory_step, has_nul, library_path, widen, resolution, StepView, MAX_PATH, PATH_SEPARATOR,
};
use vstd::prelude::*;
use vstd::utf8::{encode_utf8, is_ascii_chars, is_ascii_chars_encode_utf8, is_ascii_chars_nat_bound};

verus! {

/// The kind of failure a step ended with, if it failed.
pub open spec fn failure_kind<H, A>(s: StepView<H, A>) -> Option<TetherErrorKind> {
    match s {
        StepView::Failed((kind, _)) => Some(kind),
        _ => None,
    }
}

/// The platform reported a system directory that the buffer holds.
pub open spec fn directory_reported(len: u32) -> bool {
    0 < len < MAX_PATH
}

/// The path of `library` in a directory of `len` units fits the buffer.
pub open spec fn path_fits(len: u32, library: Seq<char>) -> bool {
    len + 1 + encode_utf8(library).len() < MAX_PATH
}

/// Whenever a load is asked for, the path is the reported directory, one
/// separator and the library's name, NUL-terminated, and the whole fits a
/// buffer of `MAX_PATH` units: the library is never looked for by its bare
/// name.
pub proof fn lemma_load_path_is_absolute<H, A>(buffer: Seq<u16>, len: u32, library: Seq<char>)
    requires
        buffer.len() == MAX_PATH,
        directory_step::<H, A>(buffer, len, library) is LoadLibrary,
    ensures
        ({
            let path = directory_step::<H, A>(buffer, len, library)->LoadLibrary_0;
            &&& directory_reported(len) && path_fits(len, library)
            &&& path == library_path(buffer.take(len as int), library)
            &&& path.len() <= MAX_PATH
            &&& path.take(len as int) == buffer.take(len as int)
            &&& path[len as int] == PATH_SEPARATOR
            &&& path.last() == 0u16
        }),
{
    let path = library_path(buffer.take(len as int), library);
    assert(path.take(len as int) =~= buffer.take(len as int));
}

/// For an ASCII library name, the name in the path is the name's own
/// characters, one UTF-16 unit each.
pub proof fn lemma_ascii_name_in_path(library: Seq<char>)
    requires
        is_ascii_chars(library),
    ensures
        widen(encode_utf8(library)).len() == library.len(),
        forall|i: int| 0 <= i < library.len() ==> widen(encode_utf8(library))[i] == library[i] as u16,
{
    is_ascii_chars_encode_utf8(library);
    is_ascii_chars_nat_bound(library);
}

/// An export that exists in a library that loads is resolved: the
/// resolution ends with the entry point the platform found, and no error.
pub proof fn lemma_present_export_resolves<H, A>(
    buffer: Seq<u16>,
    len: u32,
    library: Seq<char>,
    export: Seq<char>,
    module: H,
    entry: A,
)
    requires
        directory_reported(len),
        path_fits(len, library),
        !has_nul(encode_utf8(export)),
    ensures
        resolution(buffer, len, library, export, Some(module), Some(entry)) == StepView::<
            H,
            A,
        >::Resolved(entry),
{
}

/// A library name too long for the path buffer fails with a buffer
/// overflow before any load is asked for, whatever the platform would
/// have answered later.
pub proof fn lemma_overflow_before_load<H, A>(
    buffer: Seq<u16>,
    len: u32,
    library: Seq<char>,
    export: Seq<char>,
    loaded: Option<H>,
    found: Option<A>,
)
    requires
        directory_reported(len),
        !path_fits(len, library),
    ensures
        failure_kind(directory_step::<H, A>(buffer, len, library)) == Some(
            TetherErrorKind::PathBufferOverflow,
        ),
        resolution(buffer, len, library, export, loaded, found) == directory_step::<H, A>(
            buffer,
            len,
            library,
        ),
{
}

/// An export that a loaded library lacks fails as not found, and as
/// nothing else.
pub proof fn lemma_missing_export_not_found<H, A>(
    buffer: Seq<u16>,
    len: u32,
    library: Seq<char>,
    export: Seq<char>,
    module: H,
)
    requires
        directory_reported(len),
        path_fits(len, library),
        !has_nul(encode_utf8(export)),
    ensures
        failure_kind(resolution::<H, A>(buffer, len, library, export, Some(module), None))
            == Some(TetherErrorKind::ExportNotFound),
{
}

/// A library that does not load fails as a load failure, never as a
/// missing export, whatever the export.
pub proof fn lemma_missing_library_load_failed<H, A>(
    buffer: Seq<u16>,
    len: u32,
    library: Seq<char>,
    export: Seq<char>,
    found: Option<A>,
)
    requires
        directory_reported(len),
        path_fits(len, library),
    ensures
        failure_kind(resolution::<H, A>(buffer, len, library, export, None, found)) == Some(
            TetherErrorKind::LibraryLoadFailed,
        ),
{
}

/// Resolving the same names twice, with the platform answering the same
/// both times, ends the same way both times: nothing is kept between
/// resolutions.
pub proof fn lemma_resolution_repeats<H, A>(
    buffer: Seq<u16>,
    len: u32,
    library: Seq<char>,
    export: Seq<char>,
    loaded: Option<H>,
    found: Option<A>,
    buffer2: Seq<u16>,
    len2: u32,
    loaded2: Option<H>,
    found2: Option<A>,
)
    requires
        buffer2 == buffer,
        len2 == len,
        loaded2 == loaded,
        found2 == found,
    ensures
        resolution(buffer2, len2, library, export, loaded2, found2) == resolution(
            buffer,
            len,
            library,
            export,
            loaded,
            found,
        ),
{
}

} // verus!
