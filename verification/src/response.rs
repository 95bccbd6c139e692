//! The record that a successful operation leaves for outside observers.

use vstd::prelude::*;

verus! {

/// One key and value of a response.
#[derive(Clone, Debug, PartialEq, Eq)]
pub struct Attribute {
    pub key: String,
    pub value: String,
}

/// What an operation reports: its attributes, in the order they were added.
#[derive(Clone, Debug, PartialEq, Eq)]
pub struct Response {
    pub attributes: Vec<Attribute>,
}

impl View for Response {
    type V = Seq<(Seq<char>, Seq<char>)>;

    /// The keys and values, in order.
    open spec fn view(&self) -> Seq<(Seq<char>, Seq<char>)> {
        self.attributes@.map_values(|attribute: Attribute| (attribute.key@, attribute.value@))
    }
}

impl Response {
    /// A response without attributes.
    pub fn new() -> (response: Response)
        ensures
            response@ == Seq::<(Seq<char>, Seq<char>)>::empty(),
    {
        let response = Response { attributes: Vec::new() };
        assert(response@ =~= Seq::<(Seq<char>, Seq<char>)>::empty());
        response
    }

    /// The response with one more attribute at its end.
    pub fn add_attribute(self, key: &str, value: &str) -> (response: Response)
        ensures
            response@ == self@.push((key@, value@)),
    {
        let mut attributes = self.attributes;
        attributes.push(Attribute { key: key.to_owned(), value: value.to_owned() });
        let response = Response { attributes };
        assert(response@ =~= self@.push((key@, value@)));
        response
    }
}

/// What the outcome of an operation says, as plain text.
pub open spec fn outcome_view<E>(outcome: Result<Response, E>) -> Result<
    Seq<(Seq<char>, Seq<char>)>,
    E,
> {
    match outcome {
        Ok(response) => Ok(response@),
        Err(error) => Err(error),
    }
}

} // verus!
