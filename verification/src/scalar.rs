use vstd::prelude::*;
use vstd::string::StringExecFns;

verus! {

/// The text a fresh scalar store holds.
pub open spec fn default_scalar() -> Seq<char> {
    "Hallo"@
}

/// The text `read` composes: the stored value, a comma and a space, the
/// caller's suffix, and an exclamation mark.
pub open spec fn composed_text(value: Seq<char>, suffix: Seq<char>) -> Seq<char> {
    value + ", "@ + suffix + "!"@
}

/// The confirmation `replace` answers, embedding the new value verbatim.
pub open spec fn confirmation_text(value: Seq<char>) -> Seq<char> {
    "Greeting set to '"@ + value + "'."@
}

/// A single mutable text value with a default. The value is always defined:
/// it is initialized at store creation and only ever replaced, never removed.
pub struct ScalarStore {
    value: String,
}

impl View for ScalarStore {
    type V = Seq<char>;

    closed spec fn view(&self) -> Seq<char> {
        self.value@
    }
}

impl ScalarStore {
    /// A fresh store holds the default text.
    pub fn new() -> (s: Self)
        ensures
            s@ == default_scalar(),
    {
        ScalarStore { value: String::from_str("Hallo") }
    }

    /// Compose the stored value with a caller-supplied suffix. A query:
    /// it never fails and never mutates.
    pub fn read(&self, suffix: &String) -> (r: String)
        ensures
            r@ == composed_text(self@, suffix@),
    {
        let r = self.value.clone();
        let r = r.concat(", ");
        let r = r.concat(suffix.as_str());
        let r = r.concat("!");
        r
    }

    /// Replace the stored value with `new_value` and answer a confirmation
    /// that embeds the new value. An update: it never fails.
    pub fn replace(&mut self, new_value: String) -> (r: String)
        ensures
            final(self)@ == new_value@,
            r@ == confirmation_text(new_value@),
    {
        let ghost nv = new_value@;
        let r = String::from_str("Greeting set to '");
        let r = r.concat(new_value.as_str());
        let r = r.concat("'.");
        self.value = new_value;
        proof {
            assert(r@ == confirmation_text(nv));
        }
        r
    }
}

} // verus!
