//! The platforms that a target can be built for.

use crate::text::same_text;
use vstd::prelude::*;

verus! {

/// A platform of a build target.
#[derive(Debug, Clone, Copy, PartialEq, Eq, Structural, Hash)]
pub enum Platform {
    /// Written `iOS`.
    IOS,
    /// Written `watchOS`.
    WatchOS,
    /// Written `tvOS`.
    TvOS,
    /// Written `macOS`.
    MacOS,
    /// No platform; written as the empty text.
    Unspecified,
}

/// Why a value names no platform.
#[derive(Debug, Clone, Copy, PartialEq, Eq, Structural, Hash)]
pub enum PlatformError {
    /// The text is not the name of a platform.
    Unknown,
    /// The value is not text.
    NotText,
}

impl PlatformError {
    /// The words of the error.
    pub open spec fn text(self) -> Seq<char> {
        match self {
            PlatformError::Unknown => "Fail to deserialize Platform"@,
            PlatformError::NotText => "Fail to deserialize Platform, expected string"@,
        }
    }

    /// The words of the error.
    pub fn to_string(&self) -> (r: String)
        ensures
            r@ == self.text(),
    {
        match self {
            PlatformError::Unknown => "Fail to deserialize Platform".to_owned(),
            PlatformError::NotText => "Fail to deserialize Platform, expected string".to_owned(),
        }
    }
}

/// The platform that a name stands for. The empty text is no name here.
pub open spec fn platform_named(name: Seq<char>) -> Option<Platform> {
    if name == "iOS"@ {
        Some(Platform::IOS)
    } else if name == "watchOS"@ {
        Some(Platform::WatchOS)
    } else if name == "tvOS"@ {
        Some(Platform::TvOS)
    } else if name == "macOS"@ {
        Some(Platform::MacOS)
    } else {
        None
    }
}

/// The platform that a text is the written form of. The empty text is the
/// written form of [`Platform::Unspecified`].
pub open spec fn platform_written(text: Seq<char>) -> Option<Platform> {
    if text == ""@ {
        Some(Platform::Unspecified)
    } else {
        platform_named(text)
    }
}

/// The platform that a script value stands for. `None` is a value that is
/// not text.
pub open spec fn platform_of_value(value: Option<Seq<char>>) -> Result<Platform, PlatformError> {
    match value {
        Some(name) => match platform_named(name) {
            Some(platform) => Ok(platform),
            None => Err(PlatformError::Unknown),
        },
        None => Err(PlatformError::NotText),
    }
}

impl Platform {
    /// The name of a platform; empty for [`Platform::Unspecified`].
    pub open spec fn name(self) -> Seq<char> {
        match self {
            Platform::IOS => "iOS"@,
            Platform::WatchOS => "watchOS"@,
            Platform::TvOS => "tvOS"@,
            Platform::MacOS => "macOS"@,
            Platform::Unspecified => ""@,
        }
    }

    /// The arguments that select the simulator SDK of a platform.
    pub open spec fn simulator_args(self) -> Seq<Seq<char>> {
        match self {
            Platform::IOS => seq!["-sdk"@, "iphonesimulator"@],
            Platform::WatchOS => seq!["-sdk"@, "watchsimulator"@],
            Platform::TvOS => seq!["-sdk"@, "appletvsimulator"@],
            Platform::MacOS => seq!["-sdk"@, "macosx"@],
            Platform::Unspecified => Seq::empty(),
        }
    }

    /// The arguments that select the simulator SDK of the platform; none for
    /// [`Platform::Unspecified`].
    pub fn sdk_simulator_args(&self) -> (args: Vec<String>)
        ensures
            args.deep_view() == self.simulator_args(),
    {
        let mut args: Vec<String> = Vec::new();
        let sdk: &str = match self {
            Platform::IOS => "iphonesimulator",
            Platform::WatchOS => "watchsimulator",
            Platform::TvOS => "appletvsimulator",
            Platform::MacOS => "macosx",
            Platform::Unspecified => {
                assert(args.deep_view() == Seq::<Seq<char>>::empty());
                return args;
            },
        };
        args.push("-sdk".to_owned());
        args.push(sdk.to_owned());
        assert(args.deep_view() == seq!["-sdk"@, sdk@]);
        args
    }

    #[must_use]
    pub fn is_ios(&self) -> (r: bool)
        ensures
            r == (*self == Platform::IOS),
    {
        matches!(self, Platform::IOS)
    }

    #[must_use]
    pub fn is_watch_os(&self) -> (r: bool)
        ensures
            r == (*self == Platform::WatchOS),
    {
        matches!(self, Platform::WatchOS)
    }

    #[must_use]
    pub fn is_tv_os(&self) -> (r: bool)
        ensures
            r == (*self == Platform::TvOS),
    {
        matches!(self, Platform::TvOS)
    }

    #[must_use]
    pub fn is_mac_os(&self) -> (r: bool)
        ensures
            r == (*self == Platform::MacOS),
    {
        matches!(self, Platform::MacOS)
    }

    /// The name of the platform.
    pub fn to_string(&self) -> (r: String)
        ensures
            r@ == self.name(),
    {
        match self {
            Platform::IOS => "iOS".to_owned(),
            Platform::WatchOS => "watchOS".to_owned(),
            Platform::TvOS => "tvOS".to_owned(),
            Platform::MacOS => "macOS".to_owned(),
            Platform::Unspecified => "".to_owned(),
        }
    }

    /// Reads a platform from its written form, the empty text included.
    pub fn from_str(text: &str) -> (r: Result<Platform, PlatformError>)
        ensures
            r == match platform_written(text@) {
                Some(platform) => Ok::<Platform, PlatformError>(platform),
                None => Err(PlatformError::Unknown),
            },
    {
        if same_text(text, "") {
            Ok(Platform::Unspecified)
        } else {
            Platform::from_lua(Some(text))
        }
    }

    /// Reads a platform from a value that a script handed over: `Some` with
    /// the text of a value that is text, `None` for any other value. Only the
    /// four names of platforms are read; the empty text is refused.
    pub fn from_lua(value: Option<&str>) -> (r: Result<Platform, PlatformError>)
        ensures
            r == platform_of_value(
                match value {
                    Some(name) => Some(name@),
                    None => None,
                },
            ),
    {
        match value {
            Some(name) => {
                if same_text(name, "iOS") {
                    Ok(Platform::IOS)
                } else if same_text(name, "watchOS") {
                    Ok(Platform::WatchOS)
                } else if same_text(name, "tvOS") {
                    Ok(Platform::TvOS)
                } else if same_text(name, "macOS") {
                    Ok(Platform::MacOS)
                } else {
                    Err(PlatformError::Unknown)
                }
            },
            None => Err(PlatformError::NotText),
        }
    }
}

impl Default for Platform {
    fn default() -> (r: Platform)
        ensures
            r == Platform::Unspecified,
    {
        Platform::Unspecified
    }
}

/// Every platform is read back from its written form, and every platform
/// but [`Platform::Unspecified`] is read back from its name.
pub proof fn lemma_platform_name_round_trip(platform: Platform)
    ensures
        platform_written(platform.name()) == Some(platform),
        platform != Platform::Unspecified ==> platform_named(platform.name()) == Some(platform),
        platform == Platform::Unspecified ==> platform_named(platform.name()) is None,
{
    reveal_strlit("iOS");
    reveal_strlit("watchOS");
    reveal_strlit("tvOS");
    reveal_strlit("macOS");
    reveal_strlit("");
    assert("iOS"@.len() == 3 && "watchOS"@.len() == 7 && "tvOS"@.len() == 4 && "macOS"@.len() == 5
        && ""@.len() == 0);
    assert("tvOS"@[0] == 't' && "iOS"@[0] == 'i' && "macOS"@[0] == 'm' && "watchOS"@[0] == 'w');
}

} // verus!
