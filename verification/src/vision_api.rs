//! Reading one reply of the text-detection service: what shape it has, and
//! which items it yields, as a list of lines or as the one largest item.

use crate::auth::bearer;
use crate::error::{text_of, Failure, PipelineError};
use crate::http::{pair, Body, Exchange, Field, HttpRequest, Method, Pair, Payload};
use crate::text::{contains_char, nonempty_lines, split_nonempty_lines};
use crate::types::vision_api::{EntityAnnotation, FullTextAnnotation, Response, Responses};
use vstd::prelude::*;

verus! {

pub const VISION_API_URL: &'static str = "https://vision.googleapis.com/v1/images:annotate";

/// What was read from an image.
#[derive(Debug, Clone, PartialEq, Eq)]
pub enum TodoItem {
    Single(String),
    List(Vec<String>),
}

/// What was read from an image, in terms of plain values.
pub enum Items {
    Single(Seq<char>),
    List(Seq<Seq<char>>),
}

impl View for TodoItem {
    type V = Items;

    open spec fn view(&self) -> Items {
        match *self {
            TodoItem::Single(item) => Items::Single(item@),
            TodoItem::List(list) => Items::List(list.deep_view()),
        }
    }
}

impl Items {
    /// The titles to hand on, in order: the one item, or each of the list.
    pub open spec fn titles(self) -> Seq<Seq<char>> {
        match self {
            Items::Single(item) => seq![item],
            Items::List(list) => list,
        }
    }
}

impl TodoItem {
    /// The titles of the tasks to create, in order.
    pub fn into_titles(self) -> (titles: Vec<String>)
        ensures
            titles.deep_view() == self@.titles(),
    {
        match self {
            TodoItem::Single(item) => {
                let ghost text = item@;
                let mut titles: Vec<String> = Vec::new();
                titles.push(item);
                assert(titles.deep_view() =~= seq![text]);
                titles
            },
            TodoItem::List(list) => list,
        }
    }
}

/// The headers of a request that presents a bearer token and carries JSON.
pub open spec fn json_headers(access_token: Seq<char>) -> Seq<Pair> {
    seq![
        pair("Authorization"@, "Bearer "@ + access_token),
        pair("Content-Type"@, "application/json"@),
    ]
}

/// The request that asks the service to annotate: one POST of the JSON text
/// `request_obj`, under the bearer token.
pub fn init_request(endpoint: &str, request_obj: String, access_token: &str) -> (request:
    HttpRequest)
    ensures
        request@ == (Exchange {
            method: Method::Post,
            url: endpoint@,
            headers: json_headers(access_token@),
            body: Payload::Text(request_obj@),
        }),
{
    let mut headers: Vec<Field> = Vec::new();
    headers.push(Field::new("Authorization", bearer(access_token).as_str()));
    headers.push(Field::new("Content-Type", "application/json"));
    assert(headers.deep_view() =~= json_headers(access_token@));
    HttpRequest {
        method: Method::Post,
        url: endpoint.to_owned(),
        headers,
        body: Body::Text(request_obj),
    }
}

/// A reply that is one of the two things the service is meant to send.
#[derive(Debug, Clone, PartialEq, Eq)]
pub enum VisionResponse {
    /// The image was read.
    Interpreted {
        text_annotations: Option<Vec<EntityAnnotation>>,
        full_text_annotation: FullTextAnnotation,
    },
    /// The service refused the image.
    Failed { code: u32, message: String },
}

/// The three shapes a reply can have.
#[derive(Debug, Clone, Copy, PartialEq, Eq, Structural)]
pub enum Shape {
    Interpreted,
    Failed,
    Malformed,
}

/// The shape of a reply. It failed where the error stands alone. It was
/// interpreted where the full text stands without an error, together with the
/// annotations where the largest item is asked for. Everything else is
/// malformed.
pub open spec fn shape_of(response: Response, single_todo: bool) -> Shape {
    if response.error is Some && response.text_annotations is None
        && response.full_text_annotation is None {
        Shape::Failed
    } else if response.error is None && response.full_text_annotation is Some && (single_todo
        ==> response.text_annotations is Some) {
        Shape::Interpreted
    } else {
        Shape::Malformed
    }
}

/// Sorts a reply into the two well-formed variants, or reports it as malformed.
pub fn classify(response: Response, single_todo: bool) -> (r: Result<
    VisionResponse,
    PipelineError,
>)
    ensures
        match shape_of(response, single_todo) {
            Shape::Interpreted => r == Ok::<VisionResponse, PipelineError>(
                VisionResponse::Interpreted {
                    text_annotations: response.text_annotations,
                    full_text_annotation: response.full_text_annotation->0,
                },
            ),
            Shape::Failed => r == Ok::<VisionResponse, PipelineError>(
                VisionResponse::Failed {
                    code: response.error->0.code,
                    message: response.error->0.message,
                },
            ),
            Shape::Malformed => r == Err::<VisionResponse, PipelineError>(
                PipelineError::MalformedShape,
            ),
        },
{
    let Response { text_annotations, full_text_annotation, error } = response;
    match (text_annotations, full_text_annotation, error) {
        (None, None, Some(error)) => Ok(
            VisionResponse::Failed { code: error.code, message: error.message },
        ),
        (text_annotations, Some(full_text_annotation), None) => {
            if single_todo && text_annotations.is_none() {
                Err(PipelineError::MalformedShape)
            } else {
                Ok(VisionResponse::Interpreted { text_annotations, full_text_annotation })
            }
        },
        _ => Err(PipelineError::MalformedShape),
    }
}

/// The annotation at `i` is the largest: it lies on one line, none on one
/// line is higher, and none before it is as high.
pub open spec fn is_largest(annotations: Seq<EntityAnnotation>, i: int) -> bool {
    &&& 0 <= i < annotations.len()
    &&& annotations[i].is_single_line()
    &&& forall|j: int|
        0 <= j < annotations.len() && (#[trigger] annotations[j]).is_single_line()
            ==> annotations[j].spec_height() <= annotations[i].spec_height()
    &&& forall|j: int|
        0 <= j < i && (#[trigger] annotations[j]).is_single_line() ==> annotations[j].spec_height()
            < annotations[i].spec_height()
}

/// No annotation lies on one line.
pub open spec fn no_candidate(annotations: Seq<EntityAnnotation>) -> bool {
    forall|j: int|
        0 <= j < annotations.len() ==> !(#[trigger] annotations[j]).is_single_line()
}

/// Where the largest annotation stands, if there is one.
pub open spec fn largest_index(annotations: Seq<EntityAnnotation>) -> Option<int> {
    if exists|i: int| is_largest(annotations, i) {
        Some(choose|i: int| is_largest(annotations, i))
    } else {
        None
    }
}

/// An index as a mathematical integer.
pub open spec fn index_of(found: Option<usize>) -> Option<int> {
    match found {
        Some(i) => Some(i as int),
        None => None,
    }
}

/// At most one annotation is the largest.
pub proof fn lemma_largest_is_unique(annotations: Seq<EntityAnnotation>, i: int, j: int)
    requires
        is_largest(annotations, i),
        is_largest(annotations, j),
    ensures
        i == j,
{
    if i < j {
        assert(annotations[i].is_single_line());
    } else if j < i {
        assert(annotations[j].is_single_line());
    }
}

/// An annotation whose text holds a newline is never the largest, however
/// high its box is.
pub proof fn lemma_multi_line_never_selected(annotations: Seq<EntityAnnotation>, k: int)
    requires
        0 <= k < annotations.len(),
        annotations[k].description@.contains('\n'),
    ensures
        !is_largest(annotations, k),
        largest_index(annotations) != Some(k),
{
    if largest_index(annotations) is Some {
        let i = choose|i: int| is_largest(annotations, i);
        assert(is_largest(annotations, i));
    }
}

/// Finds the largest annotation: among those on one line, the first of those
/// with the greatest height.
pub fn find_largest_index(annotations: &Vec<EntityAnnotation>) -> (found: Option<usize>)
    ensures
        match found {
            Some(i) => is_largest(annotations@, i as int),
            None => no_candidate(annotations@),
        },
        index_of(found) == largest_index(annotations@),
{
    let mut best: Option<usize> = None;
    let mut best_height: u32 = 0;
    let mut i: usize = 0;
    while i < annotations.len()
        invariant
            i <= annotations.len(),
            match best {
                Some(b) => {
                    &&& b < i
                    &&& annotations@[b as int].is_single_line()
                    &&& best_height == annotations@[b as int].spec_height()
                    &&& forall|j: int|
                        0 <= j < i && (#[trigger] annotations@[j]).is_single_line()
                            ==> annotations@[j].spec_height() <= best_height
                    &&& forall|j: int|
                        0 <= j < b && (#[trigger] annotations@[j]).is_single_line()
                            ==> annotations@[j].spec_height() < best_height
                },
                None => forall|j: int|
                    0 <= j < i ==> !(#[trigger] annotations@[j]).is_single_line(),
            },
        decreases annotations.len() - i,
    {
        let annotation = &annotations[i];
        if !contains_char(annotation.description.as_str(), '\n') {
            let height = annotation.bounding_poly.vertices.height();
            if best.is_none() || height > best_height {
                best = Some(i);
                best_height = height;
            }
        }
        i += 1;
    }
    proof {
        match best {
            Some(b) => {
                assert(is_largest(annotations@, b as int));
                let c = choose|c: int| is_largest(annotations@, c);
                lemma_largest_is_unique(annotations@, b as int, c);
            },
            None => {
                assert forall|c: int| !is_largest(annotations@, c) by {
                    if 0 <= c < annotations@.len() {
                        assert(!annotations@[c].is_single_line());
                    }
                }
            },
        }
    }
    best
}

/// What the largest-item mode yields: the text of the largest annotation, or
/// the failure to find one.
pub open spec fn largest_item(annotations: Seq<EntityAnnotation>) -> Result<Seq<char>, Failure> {
    match largest_index(annotations) {
        Some(i) => Ok(annotations[i].description@),
        None => Err(Failure::NoCandidate),
    }
}

/// The text of the largest annotation. Annotations whose text holds a newline
/// span several lines and are passed over; among the others the highest box
/// wins, and among equally high ones the first.
pub fn find_largest_item(text_annotations: Vec<EntityAnnotation>) -> (r: Result<
    String,
    PipelineError,
>)
    ensures
        text_of(r) == largest_item(text_annotations@),
        r is Err ==> no_candidate(text_annotations@),
        r matches Ok(item) ==> exists|i: int|
            is_largest(text_annotations@, i) && item@ == text_annotations@[i].description@,
{
    match find_largest_index(&text_annotations) {
        Some(i) => Ok(text_annotations[i].description.clone()),
        None => Err(PipelineError::NoCandidate),
    }
}

/// The outcome of reading a reply, in terms of plain values.
pub open spec fn items_of(r: Result<TodoItem, PipelineError>) -> Result<Items, Failure> {
    match r {
        Ok(item) => Ok(item@),
        Err(e) => Err(e@),
    }
}

/// What a well-formed reply yields.
pub open spec fn reading(response: VisionResponse, single_todo: bool) -> Result<Items, Failure> {
    match response {
        VisionResponse::Failed { code, message } => Err(
            Failure::VisionApi { code, message: message@ },
        ),
        VisionResponse::Interpreted { text_annotations, full_text_annotation } => {
            if !single_todo {
                Ok(Items::List(nonempty_lines(full_text_annotation.text@)))
            } else {
                match text_annotations {
                    Some(annotations) => match largest_item(annotations@) {
                        Ok(item) => Ok(Items::Single(item)),
                        Err(e) => Err(e),
                    },
                    None => Err(Failure::MalformedShape),
                }
            }
        },
    }
}

/// What a reply yields, whatever its shape.
pub open spec fn interpretation(response: Response, single_todo: bool) -> Result<Items, Failure> {
    match shape_of(response, single_todo) {
        Shape::Malformed => Err(Failure::MalformedShape),
        Shape::Failed => Err(
            Failure::VisionApi {
                code: response.error->0.code,
                message: response.error->0.message@,
            },
        ),
        Shape::Interpreted => {
            if single_todo {
                match largest_item(response.text_annotations->0@) {
                    Ok(item) => Ok(Items::Single(item)),
                    Err(e) => Err(e),
                }
            } else {
                Ok(Items::List(nonempty_lines(response.full_text_annotation->0.text@)))
            }
        },
    }
}

/// Reduces a well-formed reply to its items: the non-empty lines of the full
/// text, or the one largest annotation. A failure of the service is passed on
/// with its code and message.
pub fn read_items(response: VisionResponse, single_todo: bool) -> (r: Result<
    TodoItem,
    PipelineError,
>)
    ensures
        items_of(r) == reading(response, single_todo),
{
    match response {
        VisionResponse::Failed { code, message } => Err(PipelineError::VisionApi { code, message }),
        VisionResponse::Interpreted { text_annotations, full_text_annotation } => {
            if !single_todo {
                Ok(TodoItem::List(split_nonempty_lines(full_text_annotation.text.as_str())))
            } else {
                match text_annotations {
                    Some(annotations) => match find_largest_item(annotations) {
                        Ok(item) => Ok(TodoItem::Single(item)),
                        Err(e) => Err(e),
                    },
                    None => Err(PipelineError::MalformedShape),
                }
            }
        },
    }
}

/// Reads one reply: classifies it, then reduces it to its items.
pub fn interpret(response: Response, single_todo: bool) -> (r: Result<TodoItem, PipelineError>)
    ensures
        items_of(r) == interpretation(response, single_todo),
{
    match classify(response, single_todo) {
        Ok(well_formed) => read_items(well_formed, single_todo),
        Err(e) => Err(e),
    }
}

/// Reads the reply to a call that sent one image: the first response counts.
pub fn interpret_reply(reply: Responses, single_todo: bool) -> (r: Result<TodoItem, PipelineError>)
    requires
        reply.responses@.len() > 0,
    ensures
        items_of(r) == interpretation(reply.responses@[0], single_todo),
{
    let mut responses = reply.responses;
    let first = responses.swap_remove(0);
    interpret(first, single_todo)
}

/// A reply with an error beside the full text, or with neither of them, is
/// malformed in either mode.
pub proof fn lemma_both_or_neither_is_malformed(response: Response, single_todo: bool)
    requires
        (response.error is Some && response.full_text_annotation is Some) || (response.error is None
            && response.full_text_annotation is None),
    ensures
        shape_of(response, single_todo) == Shape::Malformed,
        interpretation(response, single_todo) == Err::<Items, Failure>(Failure::MalformedShape),
{
}

/// A reply that holds an error and nothing else yields that error, with the
/// code and the message that the service gave.
pub proof fn lemma_error_alone_is_passed_on(response: Response, single_todo: bool)
    requires
        response.error is Some,
        response.text_annotations is None,
        response.full_text_annotation is None,
    ensures
        interpretation(response, single_todo) == Err::<Items, Failure>(
            Failure::VisionApi {
                code: response.error->0.code,
                message: response.error->0.message@,
            },
        ),
{
}

} // verus!
