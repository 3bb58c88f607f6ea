pub mod macos;

use vstd::prelude::*;

verus! {

/// The conventions of an operating system's assembler.
pub trait Platform: Sized {
    spec fn spec_function_prefix(&self) -> Seq<char>;

    spec fn spec_line_comment(&self) -> Seq<char>;

    spec fn spec_data_section(&self) -> Seq<char>;

    spec fn spec_text_section(&self) -> Seq<char>;

    /// Prepended to C function names.
    fn function_prefix(&self) -> (r: &'static str)
        ensures
            r@ == self.spec_function_prefix(),
    ;

    /// Starts a comment that runs to the end of the line.
    fn line_comment(&self) -> (r: &'static str)
        ensures
            r@ == self.spec_line_comment(),
    ;

    /// The data section header.
    fn data_section(&self) -> (r: &'static str)
        ensures
            r@ == self.spec_data_section(),
    ;

    /// The code section header.
    fn text_section(&self) -> (r: &'static str)
        ensures
            r@ == self.spec_text_section(),
    ;
}

} // verus!
