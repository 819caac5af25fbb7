use tether::failure::{TetherErrorKind, TetherFailure};
use tether::forward::{ForwardedApi, GENERIC_FAILURE};
use tether::resolver::{
    on_export_lookup, on_library_loaded, on_system_directory, system_directory_buffer,
    TetherStep, MAX_PATH, PATH_SEPARATOR,
};

const SYSTEM_DIR: &str = "C:\\Windows\\system32";

fn buffer_with(dir: &str) -> (Vec<u16>, u32) {
    let mut buffer = system_directory_buffer();
    let units: Vec<u16> = dir.encode_utf16().collect();
    buffer[..units.len()].copy_from_slice(&units);
    (buffer, units.len() as u32)
}

fn wide(s: &str) -> Vec<u16> {
    s.encode_utf16().collect()
}

/// Runs a whole resolution against fixed platform answers.
fn run(
    buffer: &Vec<u16>,
    len: u32,
    library: &str,
    export: &str,
    loaded: Option<u32>,
    found: Option<usize>,
) -> (Vec<Vec<u16>>, Result<usize, TetherFailure>) {
    let mut loads = Vec::new();
    let mut step: TetherStep<u32, usize> = on_system_directory(buffer, len, library);
    loop {
        step = match step {
            TetherStep::LoadLibrary { path } => {
                loads.push(path);
                on_library_loaded(loaded, library, export)
            }
            TetherStep::FindExport { .. } => on_export_lookup(found, library, export),
            TetherStep::Resolved(entry) => return (loads, Ok(entry)),
            TetherStep::Failed(f) => return (loads, Err(f)),
        }
    }
}

fn failed_kind(step: TetherStep<u32, usize>) -> TetherErrorKind {
    match step {
        TetherStep::Failed(f) => f.kind,
        _ => panic!("expected a failure"),
    }
}

#[test]
fn dxgi_factory_resolves_through_absolute_path() {
    let (buffer, len) = buffer_with(SYSTEM_DIR);
    let step: TetherStep<u32, usize> = on_system_directory(&buffer, len, "dxgi.dll");
    let path = match step {
        TetherStep::LoadLibrary { path } => path,
        _ => panic!("expected a load"),
    };
    let mut expected = wide("C:\\Windows\\system32\\dxgi.dll");
    expected.push(0);
    assert_eq!(path, expected);

    let step: TetherStep<u32, usize> = on_library_loaded(Some(5), "dxgi.dll", "CreateDXGIFactory");
    match step {
        TetherStep::FindExport { module, name } => {
            assert_eq!(module, 5);
            assert_eq!(name, b"CreateDXGIFactory\0".to_vec());
        }
        _ => panic!("expected a lookup"),
    }

    let step: TetherStep<u32, usize> = on_export_lookup(Some(0x1000), "dxgi.dll", "CreateDXGIFactory");
    assert!(matches!(step, TetherStep::Resolved(0x1000)));
}

#[test]
fn present_export_resolves_without_error() {
    let (buffer, len) = buffer_with(SYSTEM_DIR);
    let (loads, outcome) = run(&buffer, len, "d3d11.dll", "D3D11CreateDevice", Some(3), Some(0xABCD));
    assert_eq!(loads.len(), 1);
    assert_eq!(outcome.unwrap(), 0xABCD);
}

#[test]
fn missing_library_is_a_load_failure() {
    let (buffer, len) = buffer_with(SYSTEM_DIR);
    let (loads, outcome) = run(&buffer, len, "doesnotexist.dll", "Foo", None, Some(1));
    assert_eq!(loads.len(), 1);
    let f = outcome.unwrap_err();
    assert_eq!(f.kind, TetherErrorKind::LibraryLoadFailed);
    assert_ne!(f.kind, TetherErrorKind::ExportNotFound);
    assert_eq!(f.kind.code(), -3);
    assert_eq!(
        f.message(),
        "Failed to load library doesnotexist.dll from the system directory. (-3)"
    );
    assert_eq!(GENERIC_FAILURE, 0x80004005u32 as i32);
}

#[test]
fn missing_export_is_not_found() {
    let (buffer, len) = buffer_with(SYSTEM_DIR);
    let (_, outcome) = run(&buffer, len, "dxgi.dll", "NoSuchExport", Some(9), None);
    let f = outcome.unwrap_err();
    assert_eq!(f.kind, TetherErrorKind::ExportNotFound);
    assert_eq!(f.kind.code(), -4);
    assert_eq!(f.detail.as_deref(), Some("Failed to get address of NoSuchExport in dxgi.dll"));
    assert_eq!(f.message(), "Failed to get address of NoSuchExport in dxgi.dll (-4)");

    let (_, other) = run(&buffer, len, "doesnotexist.dll", "Foo", None, None);
    assert_ne!(f.kind, other.unwrap_err().kind);
}

#[test]
fn longest_name_that_fits_is_loaded() {
    let dir = "C:\\".to_string() + &"d".repeat(247);
    let (buffer, len) = buffer_with(&dir);
    assert_eq!(len, 250);
    // 250 + 1 + 8 = 259 < 260
    let step: TetherStep<u32, usize> = on_system_directory(&buffer, len, "dxgi.dll");
    match step {
        TetherStep::LoadLibrary { path } => {
            assert_eq!(path.len(), MAX_PATH as usize);
            assert_eq!(path[250], PATH_SEPARATOR);
            assert_eq!(path[259], 0);
        }
        _ => panic!("expected a load"),
    }
}

#[test]
fn name_reaching_max_path_overflows_without_load() {
    let dir = "C:\\".to_string() + &"d".repeat(247);
    let (buffer, len) = buffer_with(&dir);
    // 250 + 1 + 9 = 260
    let step: TetherStep<u32, usize> = on_system_directory(&buffer, len, "dxgi1.dll");
    match step {
        TetherStep::Failed(f) => {
            assert_eq!(f.kind, TetherErrorKind::PathBufferOverflow);
            assert_eq!(f.message(), "Buffer too small for module name. (-2)");
        }
        _ => panic!("expected an overflow"),
    }
    let (loads, outcome) = run(&buffer, len, "dxgi1.dll", "CreateDXGIFactory", Some(1), Some(2));
    assert!(loads.is_empty());
    assert_eq!(outcome.unwrap_err().kind, TetherErrorKind::PathBufferOverflow);
}

#[test]
fn directory_without_room_for_separator_overflows() {
    let mut buffer = system_directory_buffer();
    for unit in buffer.iter_mut().take(259) {
        *unit = 'x' as u16;
    }
    let step: TetherStep<u32, usize> = on_system_directory(&buffer, 259, "");
    match step {
        TetherStep::Failed(f) => {
            assert_eq!(f.kind, TetherErrorKind::PathBufferOverflow);
            assert_eq!(f.detail.as_deref(), Some("Buffer too small for system directory."));
        }
        _ => panic!("expected an overflow"),
    }
}

#[test]
fn unreported_directory_is_unavailable() {
    let buffer = system_directory_buffer();
    for len in [0u32, 260, 1000] {
        let step: TetherStep<u32, usize> = on_system_directory(&buffer, len, "dxgi.dll");
        match step {
            TetherStep::Failed(f) => {
                assert_eq!(f.kind, TetherErrorKind::SystemDirectoryUnavailable);
                assert_eq!(f.kind.code(), -1);
                assert_eq!(f.message(), "Couldn't get system directory. (-1)");
            }
            _ => panic!("expected a failure"),
        }
    }
}

#[test]
fn empty_name_gives_directory_and_separator() {
    let (buffer, len) = buffer_with("C:\\W");
    let step: TetherStep<u32, usize> = on_system_directory(&buffer, len, "");
    match step {
        TetherStep::LoadLibrary { path } => assert_eq!(path, vec![0x43, 0x3A, 0x5C, 0x57, 0x5C, 0]),
        _ => panic!("expected a load"),
    }
}

#[test]
fn export_name_with_nul_cannot_be_encoded() {
    let step: TetherStep<u32, usize> = on_library_loaded(Some(1), "dxgi.dll", "Foo\0Bar");
    assert_eq!(failed_kind(step), TetherErrorKind::ExportNameEncodingFailed);
    assert_eq!(TetherErrorKind::ExportNameEncodingFailed.code(), -2);
    let (buffer, len) = buffer_with(SYSTEM_DIR);
    let (loads, outcome) = run(&buffer, len, "dxgi.dll", "Foo\0", Some(1), Some(2));
    assert_eq!(loads.len(), 1);
    let f = outcome.unwrap_err();
    assert_eq!(f.message(), "Failed to create procedure name string. (-2)");
}

#[test]
fn non_ascii_export_name_is_encoded_as_utf8() {
    let step: TetherStep<u32, usize> = on_library_loaded(Some(1), "x.dll", "Fé");
    match step {
        TetherStep::FindExport { name, .. } => assert_eq!(name, vec![0x46, 0xC3, 0xA9, 0]),
        _ => panic!("expected a lookup"),
    }
}

#[test]
fn resolving_twice_ends_alike() {
    let (buffer, len) = buffer_with(SYSTEM_DIR);
    for (loaded, found) in [(Some(1u32), Some(7usize)), (Some(1), None), (None, None)] {
        let (loads1, first) = run(&buffer, len, "dxgi.dll", "CreateDXGIFactory1", loaded, found);
        let (loads2, second) = run(&buffer, len, "dxgi.dll", "CreateDXGIFactory1", loaded, found);
        assert_eq!(loads1, loads2);
        match (first, second) {
            (Ok(a), Ok(b)) => assert_eq!(a, b),
            (Err(a), Err(b)) => {
                assert_eq!(a.kind, b.kind);
                assert_eq!(a.detail, b.detail);
            }
            _ => panic!("outcomes differ"),
        }
    }
}

#[test]
fn report_without_detail_is_the_code() {
    let f = TetherFailure { kind: TetherErrorKind::ExportNotFound, detail: None };
    assert_eq!(f.message(), "-4");
    let f = TetherFailure { kind: TetherErrorKind::SystemDirectoryUnavailable, detail: Some("x".to_string()) };
    assert_eq!(f.message(), "x (-1)");
    assert_eq!(TetherErrorKind::PathBufferOverflow.code_text(), "-2");
    assert_eq!(TetherErrorKind::LibraryLoadFailed.code_text(), "-3");
}

#[test]
fn directory_buffer_is_zeroed_max_path() {
    let buffer = system_directory_buffer();
    assert_eq!(buffer.len(), 260);
    assert!(buffer.iter().all(|&u| u == 0));
}

#[test]
fn forwarded_apis_name_their_libraries() {
    assert_eq!(ForwardedApi::CreateDXGIFactory.library_name(), "dxgi.dll");
    assert_eq!(ForwardedApi::CreateDXGIFactory.export_name(), "CreateDXGIFactory");
    assert_eq!(ForwardedApi::CreateDXGIFactory2.export_name(), "CreateDXGIFactory2");
    assert_eq!(ForwardedApi::DirectInput8Create.library_name(), "dinput8.dll");
    assert_eq!(ForwardedApi::D3D11CreateDeviceAndSwapChain.library_name(), "d3d11.dll");
    assert_eq!(
        ForwardedApi::D3D11CreateDeviceAndSwapChain.export_name(),
        "D3D11CreateDeviceAndSwapChain"
    );
}
