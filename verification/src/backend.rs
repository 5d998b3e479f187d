//! Which graphics API the engine is built on, and on which systems each one
//! can be had.

use vstd::prelude::*;

verus! {

/// The graphics APIs the engine can be built on.
#[derive(PartialEq, Eq, Copy, Clone, Debug, Structural)]
pub enum GraphicsApi {
    OpenGL,
    Vulkan,
    D3D11,
    D3D12,
    Metal,
}

/// The systems the engine can be built for.
#[derive(PartialEq, Eq, Copy, Clone, Debug, Structural)]
pub enum TargetOS {
    Windows,
    Linux,
    MacOS,
    IOS,
    TVOS,
    Android,
    Web,
}

/// The graphics APIs that were asked for by name.
#[derive(PartialEq, Eq, Copy, Clone, Debug, Structural)]
pub struct Requested {
    pub opengl: bool,
    pub vulkan: bool,
    pub d3d11: bool,
    pub d3d12: bool,
    pub metal: bool,
}

/// A graphics API was chosen for a system it cannot be had on.
#[derive(PartialEq, Eq, Copy, Clone, Debug, Structural)]
pub struct Unsupported {
    pub graphics: GraphicsApi,
    pub os: TargetOS,
}

impl TargetOS {
    /// The system written as `name`, if there is one.
    pub open spec fn named(name: Seq<char>) -> Option<TargetOS> {
        if name == "windows"@ {
            Some(TargetOS::Windows)
        } else if name == "linux"@ {
            Some(TargetOS::Linux)
        } else if name == "macos"@ {
            Some(TargetOS::MacOS)
        } else if name == "ios"@ {
            Some(TargetOS::IOS)
        } else if name == "tvos"@ {
            Some(TargetOS::TVOS)
        } else if name == "android"@ {
            Some(TargetOS::Android)
        } else if name == "web"@ {
            Some(TargetOS::Web)
        } else {
            None
        }
    }

    /// Reads a system from its name.
    pub fn parse(name: &str) -> (os: Option<TargetOS>)
        ensures
            os == Self::named(name@),
    {
        let name: String = name.to_owned();
        if name == "windows".to_owned() {
            Some(TargetOS::Windows)
        } else if name == "linux".to_owned() {
            Some(TargetOS::Linux)
        } else if name == "macos".to_owned() {
            Some(TargetOS::MacOS)
        } else if name == "ios".to_owned() {
            Some(TargetOS::IOS)
        } else if name == "tvos".to_owned() {
            Some(TargetOS::TVOS)
        } else if name == "android".to_owned() {
            Some(TargetOS::Android)
        } else if name == "web".to_owned() {
            Some(TargetOS::Web)
        } else {
            None
        }
    }

    /// The name the system is written as.
    pub open spec fn name_of(self) -> Seq<char> {
        match self {
            TargetOS::Windows => "windows"@,
            TargetOS::Linux => "linux"@,
            TargetOS::MacOS => "macos"@,
            TargetOS::IOS => "ios"@,
            TargetOS::TVOS => "tvos"@,
            TargetOS::Android => "android"@,
            TargetOS::Web => "web"@,
        }
    }

    /// The name the system is written as.
    pub fn name(&self) -> (name: &'static str)
        ensures
            name@ == self.name_of(),
    {
        match self {
            TargetOS::Windows => "windows",
            TargetOS::Linux => "linux",
            TargetOS::MacOS => "macos",
            TargetOS::IOS => "ios",
            TargetOS::TVOS => "tvos",
            TargetOS::Android => "android",
            TargetOS::Web => "web",
        }
    }
}

impl GraphicsApi {
    /// Whether the API can be had on `os`. OpenGL is at home everywhere,
    /// Vulkan on Windows, Linux and Android, Direct3D on Windows alone, Metal
    /// on the Apple systems alone.
    pub open spec fn supported_on(self, os: TargetOS) -> bool {
        match self {
            GraphicsApi::OpenGL => true,
            GraphicsApi::Vulkan => os == TargetOS::Windows || os == TargetOS::Linux || os
                == TargetOS::Android,
            GraphicsApi::D3D11 | GraphicsApi::D3D12 => os == TargetOS::Windows,
            GraphicsApi::Metal => os == TargetOS::MacOS || os == TargetOS::IOS || os
                == TargetOS::TVOS,
        }
    }

    /// The API a system gets where none is asked for by name.
    pub open spec fn default_on(os: TargetOS) -> GraphicsApi {
        match os {
            TargetOS::MacOS | TargetOS::IOS | TargetOS::TVOS => GraphicsApi::Metal,
            TargetOS::Windows => GraphicsApi::D3D11,
            TargetOS::Android | TargetOS::Linux | TargetOS::Web => GraphicsApi::OpenGL,
        }
    }

    /// The API that is chosen: the first that was asked for by name, in the
    /// order OpenGL, Vulkan, D3D11, D3D12, Metal, and the system's default
    /// where none was.
    pub open spec fn chosen(requested: Requested, os: TargetOS) -> GraphicsApi {
        if requested.opengl {
            GraphicsApi::OpenGL
        } else if requested.vulkan {
            GraphicsApi::Vulkan
        } else if requested.d3d11 {
            GraphicsApi::D3D11
        } else if requested.d3d12 {
            GraphicsApi::D3D12
        } else if requested.metal {
            GraphicsApi::Metal
        } else {
            Self::default_on(os)
        }
    }

    /// Whether the API is driven through the older of the engine's two
    /// graphics layers directly.
    pub fn is_g4(&self) -> (direct: bool)
        ensures
            direct == (*self == GraphicsApi::OpenGL || *self == GraphicsApi::D3D11),
    {
        matches!(self, GraphicsApi::OpenGL | GraphicsApi::D3D11)
    }

    /// Whether the API can be had on `os`.
    pub fn is_supported(&self, os: TargetOS) -> (supported: bool)
        ensures
            supported == self.supported_on(os),
    {
        match self {
            GraphicsApi::OpenGL => true,
            GraphicsApi::Vulkan => matches!(
                os,
                TargetOS::Windows | TargetOS::Linux | TargetOS::Android
            ),
            GraphicsApi::D3D11 | GraphicsApi::D3D12 => matches!(os, TargetOS::Windows),
            GraphicsApi::Metal => matches!(os, TargetOS::MacOS | TargetOS::IOS | TargetOS::TVOS),
        }
    }

    /// The name the API is asked for by.
    pub fn to_feature(self) -> (feature: &'static str)
        ensures
            feature@ == match self {
                GraphicsApi::OpenGL => "opengl"@,
                GraphicsApi::Vulkan => "vulkan"@,
                GraphicsApi::D3D11 => "d3d11"@,
                GraphicsApi::D3D12 => "d3d12"@,
                GraphicsApi::Metal => "metal"@,
            },
    {
        match self {
            GraphicsApi::OpenGL => "opengl",
            GraphicsApi::Vulkan => "vulkan",
            GraphicsApi::D3D11 => "d3d11",
            GraphicsApi::D3D12 => "d3d12",
            GraphicsApi::Metal => "metal",
        }
    }

    /// The name the API is reported by.
    pub fn name(&self) -> (name: &'static str)
        ensures
            name@ == match self {
                GraphicsApi::OpenGL => "OpenGL"@,
                GraphicsApi::Vulkan => "Vulkan"@,
                GraphicsApi::D3D11 => "D3D11"@,
                GraphicsApi::D3D12 => "D3D12"@,
                GraphicsApi::Metal => "Metal"@,
            },
    {
        match self {
            GraphicsApi::OpenGL => "OpenGL",
            GraphicsApi::Vulkan => "Vulkan",
            GraphicsApi::D3D11 => "D3D11",
            GraphicsApi::D3D12 => "D3D12",
            GraphicsApi::Metal => "Metal",
        }
    }

    /// Chooses the API for a build: the first that was asked for by name, the
    /// system's default where none was. A choice the system cannot offer is
    /// refused before anything is built on it.
    pub fn select(requested: Requested, os: TargetOS) -> (selected: Result<
        GraphicsApi,
        Unsupported,
    >)
        ensures
            match selected {
                Ok(graphics) => graphics == Self::chosen(requested, os) && graphics.supported_on(
                    os,
                ),
                Err(e) => {
                    &&& e.graphics == Self::chosen(requested, os)
                    &&& e.os == os
                    &&& !e.graphics.supported_on(os)
                },
            },
    {
        let graphics = if requested.opengl {
            GraphicsApi::OpenGL
        } else if requested.vulkan {
            GraphicsApi::Vulkan
        } else if requested.d3d11 {
            GraphicsApi::D3D11
        } else if requested.d3d12 {
            GraphicsApi::D3D12
        } else if requested.metal {
            GraphicsApi::Metal
        } else {
            match os {
                TargetOS::MacOS | TargetOS::IOS | TargetOS::TVOS => GraphicsApi::Metal,
                TargetOS::Windows => GraphicsApi::D3D11,
                TargetOS::Android | TargetOS::Linux | TargetOS::Web => GraphicsApi::OpenGL,
            }
        };
        if graphics.is_supported(os) {
            Ok(graphics)
        } else {
            Err(Unsupported { graphics, os })
        }
    }
}

/// The default of every system is an API the system can offer: where no API
/// is asked for by name, the choice never fails.
pub proof fn lemma_default_is_supported(os: TargetOS)
    ensures
        GraphicsApi::default_on(os).supported_on(os),
        GraphicsApi::chosen(
            Requested { opengl: false, vulkan: false, d3d11: false, d3d12: false, metal: false },
            os,
        ).supported_on(os),
{
}

/// Every system has a name of its own, and reading the name gives the system
/// back.
pub proof fn lemma_name_round_trip(os: TargetOS)
    ensures
        TargetOS::named(os.name_of()) == Some(os),
{
    reveal_strlit("windows");
    reveal_strlit("linux");
    reveal_strlit("macos");
    reveal_strlit("ios");
    reveal_strlit("tvos");
    reveal_strlit("android");
    reveal_strlit("web");
    match os {
        TargetOS::Windows => {},
        TargetOS::Linux => {
            assert("linux"@[0] != "windows"@[0]);
        },
        TargetOS::MacOS => {
            assert("macos"@[0] != "windows"@[0]);
            assert("macos"@[0] != "linux"@[0]);
        },
        TargetOS::IOS => {
            assert("ios"@.len() != "windows"@.len());
            assert("ios"@.len() != "linux"@.len());
            assert("ios"@.len() != "macos"@.len());
        },
        TargetOS::TVOS => {
            assert("tvos"@.len() != "windows"@.len());
            assert("tvos"@.len() != "linux"@.len());
            assert("tvos"@.len() != "macos"@.len());
            assert("tvos"@.len() != "ios"@.len());
        },
        TargetOS::Android => {
            assert("android"@[0] != "windows"@[0]);
            assert("android"@.len() != "linux"@.len());
            assert("android"@.len() != "macos"@.len());
            assert("android"@.len() != "ios"@.len());
            assert("android"@.len() != "tvos"@.len());
        },
        TargetOS::Web => {
            assert("web"@.len() != "windows"@.len());
            assert("web"@.len() != "linux"@.len());
            assert("web"@.len() != "macos"@.len());
            assert("web"@[0] != "ios"@[0]);
            assert("web"@.len() != "tvos"@.len());
            assert("web"@.len() != "android"@.len());
        },
    }
}

} // verus!
