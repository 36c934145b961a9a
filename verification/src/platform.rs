//! The operating environments the bridge knows how to serve.

use vstd::prelude::*;

verus! {

/// Process creation flag that keeps a child from opening a console window.
pub const CREATE_NO_WINDOW: u32 = 0x0800_0000;

/// A target operating environment.
#[derive(Clone, Copy, Debug, PartialEq, Eq, Structural)]
pub enum Platform {
    Windows,
    MacOs,
    Linux,
}

impl Platform {
    /// The platform that goes by the operating-system name `name`.
    pub open spec fn named(name: Seq<char>) -> Option<Platform> {
        if name == "windows"@ {
            Some(Platform::Windows)
        } else if name == "macos"@ {
            Some(Platform::MacOs)
        } else if name == "linux"@ {
            Some(Platform::Linux)
        } else {
            None
        }
    }

    /// Whether a child process would flash a console window unless told not to.
    pub open spec fn console_windowed(self) -> bool {
        self == Platform::Windows
    }

    /// The creation flags a child process is spawned with on this platform.
    pub open spec fn spawn_flags(self) -> u32 {
        if self.console_windowed() {
            CREATE_NO_WINDOW
        } else {
            0
        }
    }

    /// Finds the platform for an operating-system name as the standard
    /// library spells it (`"windows"`, `"macos"`, `"linux"`).
    pub fn from_os_name(name: &str) -> (platform: Option<Platform>)
        ensures
            platform == Platform::named(name@),
    {
        if name.eq("windows") {
            Some(Platform::Windows)
        } else if name.eq("macos") {
            Some(Platform::MacOs)
        } else if name.eq("linux") {
            Some(Platform::Linux)
        } else {
            None
        }
    }

    /// Says whether spawning on this platform needs the hidden-console flag.
    pub fn needs_hidden_console(self) -> (hidden: bool)
        ensures
            hidden == self.console_windowed(),
    {
        match self {
            Platform::Windows => true,
            Platform::MacOs => false,
            Platform::Linux => false,
        }
    }
}

} // verus!
