use super::Platform;
use vstd::prelude::*;

verus! {

/// macOS: underscore-prefixed C symbols and Mach-O section names.
#[derive(Debug, Clone, Copy, PartialEq, Eq, Structural)]
pub struct MacOS;

impl Platform for MacOS {
    open spec fn spec_function_prefix(&self) -> Seq<char> {
        "_"@
    }

    open spec fn spec_line_comment(&self) -> Seq<char> {
        "//"@
    }

    open spec fn spec_data_section(&self) -> Seq<char> {
        ".section __DATA,__data"@
    }

    open spec fn spec_text_section(&self) -> Seq<char> {
        ".section __TEXT,__text"@
    }

    fn function_prefix(&self) -> (r: &'static str) {
        "_"
    }

    fn line_comment(&self) -> (r: &'static str) {
        "//"
    }

    fn data_section(&self) -> (r: &'static str) {
        ".section __DATA,__data"
    }

    fn text_section(&self) -> (r: &'static str) {
        ".section __TEXT,__text"
    }
}

} // verus!
