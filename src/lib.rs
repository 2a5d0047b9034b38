//! Lets a program's entry point report a failure by its human-readable text.
//!
//! A [`Terminator`] captures the human-readable rendering of a failure value
//! at the moment it is built, and hands exactly that text back, with no
//! quoting, field labels or braces, when the failure is reported.
use vstd::prelude::*;

verus! {

/// A failure reduced to the human-readable text it was rendered as.
///
/// The text is captured once, when the value is built, and never changes.
pub struct Terminator {
    message: String,
}

impl View for Terminator {
    type V = Seq<char>;

    /// The captured message.
    closed spec fn view(&self) -> Seq<char> {
        self.message@
    }
}

/// `text` is what the `Display` impl of `v` writes: the text that
/// `v.to_string()` returns.
pub open spec fn is_display_text<T: core::fmt::Display>(v: &T, text: Seq<char>) -> bool {
    exists|s: String| vstd::string::to_string_from_display_ensures::<T>(v, s) && s@ == text
}

impl Terminator {
    /// Builds a terminator from text that is already the human-readable
    /// rendering of a failure.
    pub fn new(message: String) -> (r: Terminator)
        ensures
            r@ == message@,
    {
        Terminator { message }
    }

    /// The text that the diagnostic rendering writes: the captured message
    /// with nothing added around it.
    pub open spec fn rendering(&self) -> Seq<char> {
        self@
    }

    /// The diagnostic rendering: the captured message, verbatim.
    ///
    /// Its result depends on the stored message alone, which nothing can
    /// change after construction, so every call gives the same text.
    pub fn fmt(&self) -> (r: String)
        ensures
            r@ == self.rendering(),
    {
        self.message.clone()
    }

    /// Converting a value and then rendering the result gives exactly that
    /// value's human-readable text, whatever its structure or its `Debug`
    /// form: the rendering is the text captured by `from`, unchanged.
    pub proof fn lemma_round_trip<T: core::fmt::Display>(v: &T, t: Terminator)
        requires
            is_display_text(v, t@),
        ensures
            is_display_text(v, t.rendering()),
    {
    }
}

/// Any value with a `Display` impl converts, not only error types: plain
/// text, numbers and boxed errors alike, so `?` accepts each of them in a
/// function that returns `Result<_, Terminator>`.
impl<T: core::fmt::Display> From<T> for Terminator {
    /// Captures the human-readable rendering of `err`.
    fn from(err: T) -> (r: Terminator)
        ensures
            is_display_text(&err, r@),
    {
        Terminator::new(err.to_string())
    }
}

/// `from`'s result is stated by its own `ensures`, as a relation to the
/// input's `Display` text, not as a single spec value; so `From`'s generic
/// clause is switched off here.
impl<T: core::fmt::Display> vstd::std_specs::convert::FromSpecImpl<T> for Terminator {
    open spec fn obeys_from_spec() -> bool {
        false
    }

    open spec fn from_spec(v: T) -> Terminator {
        arbitrary()
    }
}

} // verus!
