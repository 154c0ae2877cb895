//! The two families of operating system that the tool runs on.

use vstd::prelude::*;

verus! {

/// What the host platform decides: how paths are written and how executables are named.
#[derive(Clone, Copy, Debug, PartialEq, Eq, Structural)]
pub enum Platform {
    Unix,
    Windows,
}

impl Platform {
    /// The suffix of an executable's file name.
    pub open spec fn extension(self) -> Seq<char> {
        match self {
            Platform::Unix => Seq::empty(),
            Platform::Windows => ".exe"@,
        }
    }

    /// What stands between the components of a path.
    pub open spec fn separator(self) -> Seq<char> {
        match self {
            Platform::Unix => "/"@,
            Platform::Windows => "\\"@,
        }
    }

    /// What stands between the entries of a search path such as `PATH`.
    pub open spec fn list_separator(self) -> Seq<char> {
        match self {
            Platform::Unix => ":"@,
            Platform::Windows => ";"@,
        }
    }

    /// The suffix of an executable's file name: `.exe` on Windows, nothing elsewhere.
    pub fn executable_extension(&self) -> (r: &'static str)
        ensures
            r@ == self.extension(),
    {
        proof {
            reveal_strlit("");
        }
        match self {
            Platform::Unix => {
                assert(""@ =~= Seq::<char>::empty());
                ""
            },
            Platform::Windows => ".exe",
        }
    }

    /// What stands between the components of a path.
    pub fn path_separator(&self) -> (r: &'static str)
        ensures
            r@ == self.separator(),
    {
        match self {
            Platform::Unix => "/",
            Platform::Windows => "\\",
        }
    }

    /// What stands between the entries of a search path.
    pub fn path_list_separator(&self) -> (r: &'static str)
        ensures
            r@ == self.list_separator(),
    {
        match self {
            Platform::Unix => ":",
            Platform::Windows => ";",
        }
    }

    /// The character between the entries of a search path.
    pub open spec fn list_separator_char(self) -> char {
        match self {
            Platform::Unix => ':',
            Platform::Windows => ';',
        }
    }

    /// The character between the entries of a search path.
    pub fn path_list_separator_char(&self) -> (r: char)
        ensures
            r == self.list_separator_char(),
    {
        match self {
            Platform::Unix => ':',
            Platform::Windows => ';',
        }
    }

    /// Whether file modes exist here, so that an executable must be marked as one.
    pub fn has_file_modes(&self) -> (r: bool)
        ensures
            r == (*self == Platform::Unix),
    {
        match self {
            Platform::Unix => true,
            Platform::Windows => false,
        }
    }
}

} // verus!
