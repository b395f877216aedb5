//! Named windows of the native GUI.
use crate::{decoded, spec_c_representable, CvError};
use vstd::prelude::*;
use vstd::string::StringExecFns;

verus! {

/// Flags of a named window; a subset of the native window flags, each
/// with its own code.
#[derive(Debug, Clone, Copy, PartialEq, Eq, Hash, Structural)]
pub enum WindowFlag {
    /// The window can be resized (no constraint) or switched to fullscreen.
    Normal,
    /// The window is constrained by the image displayed.
    Autosize,
    /// The window has OpenGL support.
    Opengl,
    /// The window can be resized arbitrarily (no ratio constraint).
    FreeRatio,
}

impl WindowFlag {
    /// The native integer code of this variant.
    pub open spec fn spec_code(self) -> i32 {
        match self {
            WindowFlag::Normal => 0,
            WindowFlag::Autosize => 1,
            WindowFlag::Opengl => 4096,
            WindowFlag::FreeRatio => 256,
        }
    }

    /// The variant whose native code is `code`, if any.
    pub open spec fn spec_from_code(code: i32) -> Option<WindowFlag> {
        match code {
            0 => Some(WindowFlag::Normal),
            1 => Some(WindowFlag::Autosize),
            256 => Some(WindowFlag::FreeRatio),
            4096 => Some(WindowFlag::Opengl),
            _ => None,
        }
    }

    /// Returns the native integer code of this variant.
    pub fn code(self) -> (r: i32)
        ensures
            r == self.spec_code(),
    {
        match self {
            WindowFlag::Normal => 0,
            WindowFlag::Autosize => 1,
            WindowFlag::Opengl => 4096,
            WindowFlag::FreeRatio => 256,
        }
    }

    /// Decodes a native integer code; a code that no variant has is an
    /// error that carries the code.
    pub fn from_code(code: i32) -> (r: Result<WindowFlag, CvError>)
        ensures
            r == decoded(WindowFlag::spec_from_code(code), code),
    {
        match code {
            0 => Ok(WindowFlag::Normal),
            1 => Ok(WindowFlag::Autosize),
            256 => Ok(WindowFlag::FreeRatio),
            4096 => Ok(WindowFlag::Opengl),
            _ => Err(CvError::EnumFromPrimitiveConversionError { value: code }),
        }
    }

    /// Decoding the code of a variant gives that variant back, and a code
    /// decodes only to the variant whose code it is: every other code is
    /// rejected.
    pub proof fn lemma_code_round_trip(v: WindowFlag, code: i32)
        ensures
            WindowFlag::spec_from_code(v.spec_code()) == Some(v),
            WindowFlag::spec_from_code(code) matches Some(w) ==> w.spec_code() == code,
            WindowFlag::spec_from_code(code) is None ==> forall|u: WindowFlag| u.spec_code() != code,
    {
        assert forall|u: WindowFlag| WindowFlag::spec_from_code(#[trigger] u.spec_code()) == Some(u) by {
            match u {
                WindowFlag::Normal => {},
                WindowFlag::Autosize => {},
                WindowFlag::Opengl => {},
                WindowFlag::FreeRatio => {},
            }
        }
    }
}

/// Properties of a named window.
#[derive(Debug, Clone, Copy, PartialEq, Eq, Hash, Structural)]
pub enum WindowProperty {
    /// Fullscreen property.
    Fullscreen,
    /// Autosize property.
    Autosize,
    /// Aspect ratio of the window.
    AspectRatio,
    /// OpenGL support.
    OpenGl,
    /// Whether the window is visible.
    Visible,
}

impl WindowProperty {
    /// The native integer code of this variant.
    pub open spec fn spec_code(self) -> i32 {
        match self {
            WindowProperty::Fullscreen => 0,
            WindowProperty::Autosize => 1,
            WindowProperty::AspectRatio => 2,
            WindowProperty::OpenGl => 3,
            WindowProperty::Visible => 4,
        }
    }

    /// The variant whose native code is `code`, if any.
    pub open spec fn spec_from_code(code: i32) -> Option<WindowProperty> {
        match code {
            0 => Some(WindowProperty::Fullscreen),
            1 => Some(WindowProperty::Autosize),
            2 => Some(WindowProperty::AspectRatio),
            3 => Some(WindowProperty::OpenGl),
            4 => Some(WindowProperty::Visible),
            _ => None,
        }
    }

    /// Returns the native integer code of this variant.
    pub fn code(self) -> (r: i32)
        ensures
            r == self.spec_code(),
    {
        match self {
            WindowProperty::Fullscreen => 0,
            WindowProperty::Autosize => 1,
            WindowProperty::AspectRatio => 2,
            WindowProperty::OpenGl => 3,
            WindowProperty::Visible => 4,
        }
    }

    /// Decodes a native integer code; a code that no variant has is an
    /// error that carries the code.
    pub fn from_code(code: i32) -> (r: Result<WindowProperty, CvError>)
        ensures
            r == decoded(WindowProperty::spec_from_code(code), code),
    {
        match code {
            0 => Ok(WindowProperty::Fullscreen),
            1 => Ok(WindowProperty::Autosize),
            2 => Ok(WindowProperty::AspectRatio),
            3 => Ok(WindowProperty::OpenGl),
            4 => Ok(WindowProperty::Visible),
            _ => Err(CvError::EnumFromPrimitiveConversionError { value: code }),
        }
    }

    /// Decoding the code of a variant gives that variant back, and a code
    /// decodes only to the variant whose code it is: every other code is
    /// rejected.
    pub proof fn lemma_code_round_trip(v: WindowProperty, code: i32)
        ensures
            WindowProperty::spec_from_code(v.spec_code()) == Some(v),
            WindowProperty::spec_from_code(code) matches Some(w) ==> w.spec_code() == code,
            WindowProperty::spec_from_code(code) is None ==> forall|u: WindowProperty| u.spec_code() != code,
    {
        assert forall|u: WindowProperty| WindowProperty::spec_from_code(#[trigger] u.spec_code()) == Some(u) by {
            match u {
                WindowProperty::Fullscreen => {},
                WindowProperty::Autosize => {},
                WindowProperty::AspectRatio => {},
                WindowProperty::OpenGl => {},
                WindowProperty::Visible => {},
            }
        }
    }
}

/// State of a named native window: its name, which the native calls use
/// to find it, and whether it is still open.
#[derive(Debug)]
pub struct Window {
    name: String,
    open: bool,
}

impl Window {
    /// The name of the window.
    pub closed spec fn spec_name(&self) -> Seq<char> {
        self.name@
    }

    /// Whether the window is open.
    pub closed spec fn spec_open(&self) -> bool {
        self.open
    }

    /// Creates the state of an open window named `name`; a name that cannot
    /// stand as a native string (it holds a NUL byte) is refused.
    pub fn new(name: &str) -> (r: Result<Window, CvError>)
        ensures
            match r {
                Ok(w) => spec_c_representable(name) && w.spec_name() == name@ && w.spec_open(),
                Err(e) => !spec_c_representable(name) && (e matches CvError::InvalidString(t)
                    && t@ == name@),
            },
    {
        match crate::c_string(name) {
            Ok(_) => Ok(Window { name: String::from_str(name), open: true }),
            Err(e) => Err(e),
        }
    }

    /// Returns the window name.
    pub fn name(&self) -> (r: String)
        ensures
            r@ == self.spec_name(),
    {
        self.name.clone()
    }

    /// Checks if the window is open.
    pub fn is_open(&self) -> (r: bool)
        ensures
            r == self.spec_open(),
    {
        self.open
    }

    /// Marks the window closed; its name stays.
    pub fn close(&mut self)
        ensures
            !final(self).spec_open(),
            final(self).spec_name() == old(self).spec_name(),
    {
        self.open = false;
    }
}

} // verus!
