//! What the program asks of the operating system, on each platform that it runs on.

use vstd::prelude::*;

use crate::text::same_text;

pub mod android_trust;
pub mod elevation;
pub mod linux_trust;
pub mod loopback;
pub mod macos_trust;
pub mod ownership;
pub mod process;
pub mod trust;
pub mod windows_shell;

verus! {

/// The operating system that the program runs on.
#[derive(Debug, Clone, Copy, PartialEq, Eq, Structural)]
pub enum Platform {
    Windows,
    Macos,
    Android,
    Linux,
    Other,
}

impl Platform {
    /// The platform with the name `os`.
    pub open spec fn named(os: Seq<char>) -> Platform {
        if os == "windows"@ {
            Platform::Windows
        } else if os == "macos"@ {
            Platform::Macos
        } else if os == "android"@ {
            Platform::Android
        } else if os == "linux"@ {
            Platform::Linux
        } else {
            Platform::Other
        }
    }

    /// The platform with the name `os`, as the standard library gives it.
    pub fn from_name(os: &str) -> (platform: Platform)
        ensures
            platform == Platform::named(os@),
    {
        if same_text(os, "windows") {
            Platform::Windows
        } else if same_text(os, "macos") {
            Platform::Macos
        } else if same_text(os, "android") {
            Platform::Android
        } else if same_text(os, "linux") {
            Platform::Linux
        } else {
            Platform::Other
        }
    }
}

/// Each platform is known by one name, and a name that is none of them is that of another platform.
pub proof fn law_platforms_have_their_names(os: Seq<char>)
    ensures
        Platform::named(os) is Windows <==> os == "windows"@,
        Platform::named(os) is Macos <==> os == "macos"@,
        Platform::named(os) is Android <==> os == "android"@,
        Platform::named(os) is Linux <==> os == "linux"@,
{
    reveal_strlit("windows");
    reveal_strlit("macos");
    reveal_strlit("android");
    reveal_strlit("linux");
    assert("windows"@[0] != "macos"@[0] && "windows"@[0] != "android"@[0] && "windows"@[0]
        != "linux"@[0]);
    assert("macos"@[0] != "android"@[0] && "macos"@[0] != "linux"@[0]);
    assert("android"@[0] != "linux"@[0]);
}

} // verus!
