//! What a contract call answers: messages to send and attributes to record.
use vstd::prelude::*;
use vstd::string::*;

verus! {

/// A key and value recorded with a response.
#[derive(PartialEq, Eq, Debug)]
pub struct Attribute {
    pub key: String,
    pub value: String,
}

/// The messages and attributes of a successful call.
#[derive(Debug)]
pub struct Response<M> {
    pub messages: Vec<M>,
    pub attributes: Vec<Attribute>,
}

/// The text of an attribute, as a pair of key and value.
pub open spec fn attr_text(a: Attribute) -> (Seq<char>, Seq<char>) {
    (a.key@, a.value@)
}

impl<M> Response<M> {
    /// The attributes as pairs of texts.
    pub open spec fn attrs(&self) -> Seq<(Seq<char>, Seq<char>)> {
        self.attributes@.map_values(|a: Attribute| attr_text(a))
    }

    /// An empty response.
    pub fn new() -> (r: Self)
        ensures
            r.messages@ == Seq::<M>::empty(),
            r.attrs() == Seq::<(Seq<char>, Seq<char>)>::empty(),
    {
        let r = Response { messages: Vec::new(), attributes: Vec::new() };
        assert(r.attrs() =~= Seq::<(Seq<char>, Seq<char>)>::empty());
        r
    }

    /// Records the attribute `key` = `value`.
    pub fn add_attribute(&mut self, key: &str, value: String)
        ensures
            final(self).messages@ == old(self).messages@,
            final(self).attrs() == old(self).attrs().push((key@, value@)),
    {
        self.attributes.push(Attribute { key: String::from_str(key), value });
        assert(self.attrs() =~= old(self).attrs().push((key@, value@)));
    }

    /// Adds the message `m`.
    pub fn add_message(&mut self, m: M)
        ensures
            final(self).messages@ == old(self).messages@.push(m),
            final(self).attrs() == old(self).attrs(),
    {
        self.messages.push(m);
        assert(self.attrs() =~= old(self).attrs());
    }
}

/// The text of a boolean, as Rust writes it.
pub open spec fn bool_text(b: bool) -> Seq<char> {
    if b {
        "true"@
    } else {
        "false"@
    }
}

/// `true` or `false`.
pub fn bool_string(b: bool) -> (s: String)
    ensures
        s@ == bool_text(b),
{
    if b {
        String::from_str("true")
    } else {
        String::from_str("false")
    }
}

/// A string with the text of `s`.
pub fn text(s: &str) -> (r: String)
    ensures
        r@ == s@,
{
    String::from_str(s)
}

} // verus!
