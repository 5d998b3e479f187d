use kinc::backend::{GraphicsApi, Requested, TargetOS, Unsupported};
use kinc::krafix::{system_name, target_language};

const SYSTEMS: [TargetOS; 7] = [
    TargetOS::Windows,
    TargetOS::Linux,
    TargetOS::MacOS,
    TargetOS::IOS,
    TargetOS::TVOS,
    TargetOS::Android,
    TargetOS::Web,
];

const APIS: [GraphicsApi; 5] = [
    GraphicsApi::OpenGL,
    GraphicsApi::Vulkan,
    GraphicsApi::D3D11,
    GraphicsApi::D3D12,
    GraphicsApi::Metal,
];

fn nothing_requested() -> Requested {
    Requested { opengl: false, vulkan: false, d3d11: false, d3d12: false, metal: false }
}

#[test]
fn systems_are_read_from_their_names() {
    assert_eq!(TargetOS::parse("windows"), Some(TargetOS::Windows));
    assert_eq!(TargetOS::parse("linux"), Some(TargetOS::Linux));
    assert_eq!(TargetOS::parse("macos"), Some(TargetOS::MacOS));
    assert_eq!(TargetOS::parse("ios"), Some(TargetOS::IOS));
    assert_eq!(TargetOS::parse("tvos"), Some(TargetOS::TVOS));
    assert_eq!(TargetOS::parse("android"), Some(TargetOS::Android));
    assert_eq!(TargetOS::parse("web"), Some(TargetOS::Web));
}

#[test]
fn other_names_are_no_system() {
    for name in ["", "Windows", "freebsd", "linux-gnu", "mac", " web", "win"] {
        assert_eq!(TargetOS::parse(name), None, "{:?}", name);
    }
}

#[test]
fn a_system_name_reads_back_as_the_system() {
    for os in SYSTEMS {
        assert_eq!(TargetOS::parse(os.name()), Some(os));
    }
    assert_eq!(TargetOS::Windows.name(), "windows");
    assert_eq!(TargetOS::TVOS.name(), "tvos");
}

#[test]
fn opengl_is_supported_everywhere() {
    for os in SYSTEMS {
        assert!(GraphicsApi::OpenGL.is_supported(os), "{:?}", os);
    }
}

#[test]
fn vulkan_is_supported_on_windows_linux_and_android() {
    let expected = [true, true, false, false, false, true, false];
    for (os, supported) in SYSTEMS.iter().zip(expected) {
        assert_eq!(GraphicsApi::Vulkan.is_supported(*os), supported, "{:?}", os);
    }
}

#[test]
fn direct3d_is_supported_on_windows_alone() {
    for os in SYSTEMS {
        assert_eq!(GraphicsApi::D3D11.is_supported(os), os == TargetOS::Windows, "{:?}", os);
        assert_eq!(GraphicsApi::D3D12.is_supported(os), os == TargetOS::Windows, "{:?}", os);
    }
}

#[test]
fn metal_is_supported_on_the_apple_systems_alone() {
    let expected = [false, false, true, true, true, false, false];
    for (os, supported) in SYSTEMS.iter().zip(expected) {
        assert_eq!(GraphicsApi::Metal.is_supported(*os), supported, "{:?}", os);
    }
}

#[test]
fn only_opengl_and_d3d11_are_driven_directly() {
    let expected = [true, false, true, false, false];
    for (api, direct) in APIS.iter().zip(expected) {
        assert_eq!(api.is_g4(), direct, "{:?}", api);
    }
}

#[test]
fn api_names() {
    let features = ["opengl", "vulkan", "d3d11", "d3d12", "metal"];
    let names = ["OpenGL", "Vulkan", "D3D11", "D3D12", "Metal"];
    for ((api, feature), name) in APIS.iter().zip(features).zip(names) {
        assert_eq!(api.to_feature(), feature);
        assert_eq!(api.name(), name);
    }
}

#[test]
fn every_system_has_a_default_it_supports() {
    let defaults = [
        GraphicsApi::D3D11,
        GraphicsApi::OpenGL,
        GraphicsApi::Metal,
        GraphicsApi::Metal,
        GraphicsApi::Metal,
        GraphicsApi::OpenGL,
        GraphicsApi::OpenGL,
    ];
    for (os, default) in SYSTEMS.iter().zip(defaults) {
        assert_eq!(GraphicsApi::select(nothing_requested(), *os), Ok(default), "{:?}", os);
        assert!(default.is_supported(*os));
    }
}

#[test]
fn the_first_requested_api_is_selected() {
    let all = Requested { opengl: true, vulkan: true, d3d11: true, d3d12: true, metal: true };
    assert_eq!(GraphicsApi::select(all, TargetOS::MacOS), Ok(GraphicsApi::OpenGL));
    let no_opengl = Requested { opengl: false, ..all };
    assert_eq!(GraphicsApi::select(no_opengl, TargetOS::Linux), Ok(GraphicsApi::Vulkan));
    let d3d = Requested { vulkan: false, ..no_opengl };
    assert_eq!(GraphicsApi::select(d3d, TargetOS::Windows), Ok(GraphicsApi::D3D11));
    let d3d12 = Requested { d3d11: false, ..d3d };
    assert_eq!(GraphicsApi::select(d3d12, TargetOS::Windows), Ok(GraphicsApi::D3D12));
    let metal = Requested { d3d12: false, ..d3d12 };
    assert_eq!(GraphicsApi::select(metal, TargetOS::IOS), Ok(GraphicsApi::Metal));
}

#[test]
fn an_unsupported_request_is_refused() {
    let d3d11 = Requested { d3d11: true, ..nothing_requested() };
    assert_eq!(
        GraphicsApi::select(d3d11, TargetOS::Linux),
        Err(Unsupported { graphics: GraphicsApi::D3D11, os: TargetOS::Linux })
    );
    let metal = Requested { metal: true, ..nothing_requested() };
    assert_eq!(
        GraphicsApi::select(metal, TargetOS::Windows),
        Err(Unsupported { graphics: GraphicsApi::Metal, os: TargetOS::Windows })
    );
    let vulkan_first = Requested { vulkan: true, metal: true, ..nothing_requested() };
    assert_eq!(
        GraphicsApi::select(vulkan_first, TargetOS::MacOS),
        Err(Unsupported { graphics: GraphicsApi::Vulkan, os: TargetOS::MacOS })
    );
    let d3d12 = Requested { d3d12: true, ..nothing_requested() };
    assert_eq!(
        GraphicsApi::select(d3d12, TargetOS::Web),
        Err(Unsupported { graphics: GraphicsApi::D3D12, os: TargetOS::Web })
    );
}

#[test]
fn shader_languages_follow_api_and_system() {
    assert_eq!(target_language(GraphicsApi::OpenGL, TargetOS::Linux), Some("essl"));
    assert_eq!(target_language(GraphicsApi::OpenGL, TargetOS::Android), Some("essl"));
    assert_eq!(target_language(GraphicsApi::OpenGL, TargetOS::Windows), Some("glsl"));
    assert_eq!(target_language(GraphicsApi::OpenGL, TargetOS::MacOS), None);
    assert_eq!(target_language(GraphicsApi::OpenGL, TargetOS::IOS), None);
    assert_eq!(target_language(GraphicsApi::OpenGL, TargetOS::TVOS), None);
    assert_eq!(target_language(GraphicsApi::OpenGL, TargetOS::Web), None);
    for os in SYSTEMS {
        assert_eq!(target_language(GraphicsApi::Metal, os), Some("metal"));
        assert_eq!(target_language(GraphicsApi::Vulkan, os), Some("spirv"));
        assert_eq!(target_language(GraphicsApi::D3D11, os), Some("d3d11"));
        assert_eq!(target_language(GraphicsApi::D3D12, os), Some("d3d11"));
    }
}

#[test]
fn the_compiler_knows_three_systems() {
    let expected = ["windows", "linux", "macos", "linux", "linux", "linux", "linux"];
    for (os, name) in SYSTEMS.iter().zip(expected) {
        assert_eq!(system_name(*os), name, "{:?}", os);
    }
}
