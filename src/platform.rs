use vstd::prelude::*;

verus! {

/// The closed set of platform kinds known to the catalog.
#[derive(Clone, Copy, Debug, PartialEq, Eq, Structural, Hash)]
pub enum PlatformType {
    Unknown,
    Console,
    Arcade,
    Platform,
    OperatingSystem,
    PortableConsole,
    Computer,
}

/// The platform kind that an upstream wire code stands for: codes 0 to 6
/// name the kinds in order, every other code is `Unknown`.
pub open spec fn platform_type_of(code: int) -> PlatformType {
    if code == 1 {
        PlatformType::Console
    } else if code == 2 {
        PlatformType::Arcade
    } else if code == 3 {
        PlatformType::Platform
    } else if code == 4 {
        PlatformType::OperatingSystem
    } else if code == 5 {
        PlatformType::PortableConsole
    } else if code == 6 {
        PlatformType::Computer
    } else {
        PlatformType::Unknown
    }
}

impl PlatformType {
    /// Reads an upstream wire code; an unmapped code is `Unknown`, never an error.
    pub fn from_code(code: i32) -> (r: PlatformType)
        ensures
            r == platform_type_of(code as int),
    {
        match code {
            1 => PlatformType::Console,
            2 => PlatformType::Arcade,
            3 => PlatformType::Platform,
            4 => PlatformType::OperatingSystem,
            5 => PlatformType::PortableConsole,
            6 => PlatformType::Computer,
            _ => PlatformType::Unknown,
        }
    }

    /// The wire code of this kind, which reads back as the same kind.
    pub fn code(self) -> (r: i32)
        ensures
            0 <= r <= 6,
            platform_type_of(r as int) == self,
    {
        match self {
            PlatformType::Unknown => 0,
            PlatformType::Console => 1,
            PlatformType::Arcade => 2,
            PlatformType::Platform => 3,
            PlatformType::OperatingSystem => 4,
            PlatformType::PortableConsole => 5,
            PlatformType::Computer => 6,
        }
    }
}

/// A gaming platform as the domain sees it.
#[derive(Clone, Debug)]
pub struct Platform {
    pub id: i64,
    pub name: String,
    pub generation: Option<i32>,
    pub platform_type: PlatformType,
}

/// A platform record as the upstream catalog sends it.
#[derive(Clone, Debug)]
pub struct IgdbPlatform {
    pub id: i64,
    pub name: String,
    pub generation: Option<i32>,
    pub platform_type: Option<i32>,
}

/// Maps an upstream platform record into the domain; a missing kind code
/// counts as code 0.
pub fn map_platform(p: IgdbPlatform) -> (r: Platform)
    ensures
        r.id == p.id,
        r.name@ == p.name@,
        r.generation == p.generation,
        r.platform_type == platform_type_of(
            match p.platform_type {
                Some(c) => c as int,
                None => 0,
            },
        ),
{
    let code: i32 = match p.platform_type {
        Some(c) => c,
        None => 0,
    };
    Platform {
        id: p.id,
        name: p.name,
        generation: p.generation,
        platform_type: PlatformType::from_code(code),
    }
}

} // verus!
