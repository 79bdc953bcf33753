//! The render delegate through which a helper renders a sub-template, and an
//! output sink that renders literal text.
use vstd::prelude::*;
use vstd::string::StringExecFns;
use crate::error::RenderError;

verus! {

/// The host's capability to render a sub-template of type `T` against the
/// current context and render state, into the current output. A value of the
/// implementing type carries all three.
pub trait Renderer<T>: Sized {
    /// Rendering `t` from this state may return `r` and leave the state
    /// `after`. A renderer that states nothing of itself allows every
    /// outcome.
    open spec fn renders(&self, t: T, after: Self, r: Result<(), RenderError>) -> bool {
        true
    }

    fn render(&mut self, t: &T) -> (r: Result<(), RenderError>)
        ensures
            old(self).renders(*t, *final(self), r),
    ;
}

/// An append-only text output.
#[derive(Debug)]
pub struct StringOutput {
    buf: String,
}

impl View for StringOutput {
    type V = Seq<char>;

    closed spec fn view(&self) -> Seq<char> {
        self.buf@
    }
}

impl StringOutput {
    pub fn new() -> (r: StringOutput)
        ensures
            r@ == Seq::<char>::empty(),
    {
        StringOutput { buf: String::new() }
    }

    /// Appends `s` to the output.
    pub fn write(&mut self, s: &str)
        ensures
            final(self)@ == old(self)@ + s@,
    {
        self.buf.append(s);
    }

    pub fn as_str(&self) -> (r: &str)
        ensures
            r@ == self@,
    {
        self.buf.as_str()
    }

    pub fn into_string(self) -> (r: String)
        ensures
            r@ == self@,
    {
        self.buf
    }
}

/// A sub-template given as literal text renders by appending that text.
impl Renderer<String> for StringOutput {
    open spec fn renders(&self, t: String, after: Self, r: Result<(), RenderError>) -> bool {
        r is Ok && after@ == self@ + t@
    }

    fn render(&mut self, t: &String) -> (r: Result<(), RenderError>) {
        self.write(t.as_str());
        Ok(())
    }
}

} // verus!
