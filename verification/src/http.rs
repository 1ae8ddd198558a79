//! Requests as plain values: what is to be sent, for whoever does the
//! sending.

use vstd::prelude::*;

verus! {

#[derive(Debug, Clone, Copy, PartialEq, Eq, Structural)]
pub enum Method {
    Get,
    Post,
}

impl Method {
    pub open spec fn spec_name(self) -> Seq<char> {
        match self {
            Method::Get => "GET"@,
            Method::Post => "POST"@,
        }
    }

    /// The name of the method as it stands in a request.
    pub fn name(self) -> (name: &'static str)
        ensures
            name@ == self.spec_name(),
    {
        match self {
            Method::Get => "GET",
            Method::Post => "POST",
        }
    }
}

/// A name with its value: a header of a request, or a field of a form.
#[derive(Debug, Clone, PartialEq, Eq)]
pub struct Field {
    pub name: String,
    pub value: String,
}

/// A name with its value, in terms of plain values.
pub struct Pair {
    pub name: Seq<char>,
    pub value: Seq<char>,
}

/// The pair of a name and a value.
pub open spec fn pair(name: Seq<char>, value: Seq<char>) -> Pair {
    Pair { name, value }
}

impl View for Field {
    type V = Pair;

    open spec fn view(&self) -> Pair {
        pair(self.name@, self.value@)
    }
}

impl DeepView for Field {
    type V = Pair;

    open spec fn deep_view(&self) -> Pair {
        self@
    }
}

impl Field {
    pub fn new(name: &str, value: &str) -> (field: Self)
        ensures
            field@ == pair(name@, value@),
    {
        Field { name: name.to_owned(), value: value.to_owned() }
    }
}

/// What a request carries.
#[derive(Debug, Clone, PartialEq, Eq)]
pub enum Body {
    Empty,
    /// The fields of a form, in order.
    Form(Vec<Field>),
    /// A text, sent as it is.
    Text(String),
}

/// What a request carries, in terms of plain values.
pub enum Payload {
    Empty,
    Form(Seq<Pair>),
    Text(Seq<char>),
}

impl View for Body {
    type V = Payload;

    open spec fn view(&self) -> Payload {
        match *self {
            Body::Empty => Payload::Empty,
            Body::Form(fields) => Payload::Form(fields.deep_view()),
            Body::Text(text) => Payload::Text(text@),
        }
    }
}

/// A request that is yet to be sent.
#[derive(Debug, Clone, PartialEq, Eq)]
pub struct HttpRequest {
    pub method: Method,
    pub url: String,
    pub headers: Vec<Field>,
    pub body: Body,
}

/// A request in terms of plain values.
pub struct Exchange {
    pub method: Method,
    pub url: Seq<char>,
    pub headers: Seq<Pair>,
    pub body: Payload,
}

impl View for HttpRequest {
    type V = Exchange;

    open spec fn view(&self) -> Exchange {
        Exchange {
            method: self.method,
            url: self.url@,
            headers: self.headers.deep_view(),
            body: self.body@,
        }
    }
}

} // verus!
