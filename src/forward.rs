use vstd::prelude::*;

verus! {

/// The status a forwarding export returns when its entry point could not
/// be resolved: `0x80004005`, "unspecified failure", as a signed status.
pub const GENERIC_FAILURE: i32 = -2147467259;

/// The entry points that the proxy exports, each forwarded to the export of
/// the same name in a genuine system library.
#[derive(Clone, Copy, Debug, PartialEq, Eq, Structural)]
pub enum ForwardedApi {
    CreateDXGIFactory,
    CreateDXGIFactory1,
    CreateDXGIFactory2,
    DirectInput8Create,
    D3D11CreateDevice,
    D3D11CreateDeviceAndSwapChain,
}

/// The file name of the genuine library that holds `api`.
pub open spec fn api_library(api: ForwardedApi) -> Seq<char> {
    match api {
        ForwardedApi::CreateDXGIFactory => "dxgi.dll"@,
        ForwardedApi::CreateDXGIFactory1 => "dxgi.dll"@,
        ForwardedApi::CreateDXGIFactory2 => "dxgi.dll"@,
        ForwardedApi::DirectInput8Create => "dinput8.dll"@,
        ForwardedApi::D3D11CreateDevice => "d3d11.dll"@,
        ForwardedApi::D3D11CreateDeviceAndSwapChain => "d3d11.dll"@,
    }
}

/// The name under which the genuine library exports `api`.
pub open spec fn api_export(api: ForwardedApi) -> Seq<char> {
    match api {
        ForwardedApi::CreateDXGIFactory => "CreateDXGIFactory"@,
        ForwardedApi::CreateDXGIFactory1 => "CreateDXGIFactory1"@,
        ForwardedApi::CreateDXGIFactory2 => "CreateDXGIFactory2"@,
        ForwardedApi::DirectInput8Create => "DirectInput8Create"@,
        ForwardedApi::D3D11CreateDevice => "D3D11CreateDevice"@,
        ForwardedApi::D3D11CreateDeviceAndSwapChain => "D3D11CreateDeviceAndSwapChain"@,
    }
}

impl ForwardedApi {
    pub fn library_name(&self) -> (r: &'static str)
        ensures
            r@ == api_library(*self),
    {
        match self {
            ForwardedApi::CreateDXGIFactory => "dxgi.dll",
            ForwardedApi::CreateDXGIFactory1 => "dxgi.dll",
            ForwardedApi::CreateDXGIFactory2 => "dxgi.dll",
            ForwardedApi::DirectInput8Create => "dinput8.dll",
            ForwardedApi::D3D11CreateDevice => "d3d11.dll",
            ForwardedApi::D3D11CreateDeviceAndSwapChain => "d3d11.dll",
        }
    }

    pub fn export_name(&self) -> (r: &'static str)
        ensures
            r@ == api_export(*self),
    {
        match self {
            ForwardedApi::CreateDXGIFactory => "CreateDXGIFactory",
            ForwardedApi::CreateDXGIFactory1 => "CreateDXGIFactory1",
            ForwardedApi::CreateDXGIFactory2 => "CreateDXGIFactory2",
            ForwardedApi::DirectInput8Create => "DirectInput8Create",
            ForwardedApi::D3D11CreateDevice => "D3D11CreateDevice",
            ForwardedApi::D3D11CreateDeviceAndSwapChain => "D3D11CreateDeviceAndSwapChain",
        }
    }
}

} // verus!
