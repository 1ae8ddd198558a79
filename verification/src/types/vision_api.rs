//! Wire model of the text-detection service: the request that carries one
//! image, and the reply with its annotations or its error.

use vstd::prelude::*;
use vstd::std_specs::convert::FromSpecImpl;
use vstd::std_specs::ops::SubSpecImpl;

verus! {

/// The feature marker that asks the service for text detection.
pub const TEXT_DETECTION: &'static str = "TEXT_DETECTION";

/// The body of one annotate call: a batch of requests.
#[derive(Debug, Clone, Default, PartialEq, Eq)]
pub struct Requests {
    pub requests: Vec<Request>,
}

/// One image with the features wanted for it.
#[derive(Debug, Clone, Default, PartialEq, Eq)]
pub struct Request {
    pub image: Content,
    pub features: Vec<Item>,
}

/// Base64 text of the image bytes.
#[derive(Debug, Clone, Default, PartialEq, Eq)]
pub struct Content {
    pub content: String,
}

/// One requested feature, named by its type marker.
#[derive(Debug, Clone, PartialEq, Eq)]
pub struct Item {
    pub feature_type: String,
}

impl Item {
    /// This item asks for text detection.
    pub open spec fn is_text_detection(&self) -> bool {
        self.feature_type@ == TEXT_DETECTION@
    }
}

impl Default for Item {
    fn default() -> (item: Self)
        ensures
            item.is_text_detection(),
    {
        Item { feature_type: TEXT_DETECTION.to_owned() }
    }
}

impl Content {
    pub fn new(data: String) -> (c: Self)
        ensures
            c.content@ == data@,
    {
        Content { content: data }
    }
}

impl Request {
    /// This request carries `data` as its image and asks for text detection
    /// and nothing else.
    pub open spec fn detects_text_in(&self, data: Seq<char>) -> bool {
        &&& self.image.content@ == data
        &&& self.features@.len() == 1
        &&& self.features@[0].is_text_detection()
    }
}

impl From<String> for Request {
    fn from(data: String) -> (r: Self)
        ensures
            r.detects_text_in(data@),
    {
        let mut features: Vec<Item> = Vec::new();
        features.push(Item::default());
        Request { image: Content::new(data), features }
    }
}

/// A request holds a vector, which no spec expression can build: what `from`
/// returns is stated in its own `ensures`, not by `from_spec`.
impl FromSpecImpl<String> for Request {
    open spec fn obeys_from_spec() -> bool {
        false
    }

    open spec fn from_spec(data: String) -> Self {
        arbitrary()
    }
}

impl Requests {
    /// This batch holds exactly one request, which asks for text detection
    /// in `data`.
    pub open spec fn detects_text_in(&self, data: Seq<char>) -> bool {
        &&& self.requests@.len() == 1
        &&& self.requests@[0].detects_text_in(data)
    }
}

impl From<String> for Requests {
    fn from(data: String) -> (r: Self)
        ensures
            r.detects_text_in(data@),
    {
        let mut requests: Vec<Request> = Vec::new();
        requests.push(Request::from(data));
        Requests { requests }
    }
}

/// As for `Request`: what `from` returns is stated in its own `ensures`.
impl FromSpecImpl<String> for Requests {
    open spec fn obeys_from_spec() -> bool {
        false
    }

    open spec fn from_spec(data: String) -> Self {
        arbitrary()
    }
}

/// The reply to one annotate call: one response per request sent.
#[derive(Debug, Clone, PartialEq, Eq)]
pub struct Responses {
    pub responses: Vec<Response>,
}

/// The reply for one image, as it comes off the wire: every part optional.
#[derive(Debug, Clone, PartialEq, Eq)]
pub struct Response {
    pub text_annotations: Option<Vec<EntityAnnotation>>,
    pub full_text_annotation: Option<FullTextAnnotation>,
    pub error: Option<ApiError>,
}

/// The whole text that was read from the image.
#[derive(Debug, Clone, PartialEq, Eq)]
pub struct FullTextAnnotation {
    pub text: String,
}

/// One piece of text with the box it was found in.
#[derive(Debug, Clone, PartialEq, Eq)]
pub struct EntityAnnotation {
    pub description: String,
    pub bounding_poly: BoundingPoly,
}

#[derive(Debug, Clone, Copy, PartialEq, Eq)]
pub struct BoundingPoly {
    pub vertices: Vertices,
}

/// The four corners of a bounding box.
#[derive(Debug, Clone, Copy, PartialEq, Eq)]
pub struct Vertices {
    pub top_left: VerticeOption,
    pub top_right: VerticeOption,
    pub bottom_right: VerticeOption,
    pub bottom_left: VerticeOption,
}

/// A corner as the service reports it: a coordinate may be missing.
#[derive(Debug, Clone, Copy, PartialEq, Eq)]
pub struct VerticeOption {
    pub x: Option<u32>,
    pub y: Option<u32>,
}

/// A coordinate pair with nothing missing: the difference of two corners.
#[derive(Debug, Clone, Copy, PartialEq, Eq)]
pub struct Vertice {
    pub x: u32,
    pub y: u32,
}

/// The error that the service reports in place of annotations.
#[derive(Debug, Clone, PartialEq, Eq)]
pub struct ApiError {
    pub code: u32,
    pub message: String,
}

/// The value that a coordinate stands for: a missing one counts as 0.
pub open spec fn coordinate(c: Option<u32>) -> int {
    match c {
        Some(v) => v as int,
        None => 0,
    }
}

/// Subtraction that stops at zero.
pub open spec fn floor_sub(a: int, b: int) -> int {
    if a >= b {
        a - b
    } else {
        0
    }
}

impl VerticeOption {
    /// The coordinate-wise difference `self - other`, each stopped at zero.
    pub open spec fn minus(self, other: VerticeOption) -> Vertice {
        Vertice {
            x: floor_sub(coordinate(self.x), coordinate(other.x)) as u32,
            y: floor_sub(coordinate(self.y), coordinate(other.y)) as u32,
        }
    }
}

impl std::ops::Sub for VerticeOption {
    type Output = Vertice;

    fn sub(self, other: Self) -> (v: Vertice) {
        Vertice {
            x: self.x.unwrap_or(0).saturating_sub(other.x.unwrap_or(0)),
            y: self.y.unwrap_or(0).saturating_sub(other.y.unwrap_or(0)),
        }
    }
}

impl SubSpecImpl for VerticeOption {
    open spec fn obeys_sub_spec() -> bool {
        true
    }

    open spec fn sub_req(self, other: Self) -> bool {
        true
    }

    open spec fn sub_spec(self, other: Self) -> Vertice {
        self.minus(other)
    }
}

impl Vertices {
    /// How far the left edge runs from top to bottom; 0 where the bottom
    /// does not lie below the top.
    pub open spec fn spec_height(self) -> int {
        floor_sub(coordinate(self.bottom_left.y), coordinate(self.top_left.y))
    }

    pub fn height(self) -> (h: u32)
        ensures
            h == self.spec_height(),
    {
        (self.bottom_left - self.top_left).y
    }
}

impl EntityAnnotation {
    /// The height of this annotation's bounding box.
    pub open spec fn spec_height(&self) -> int {
        self.bounding_poly.vertices.spec_height()
    }

    /// The text lies on one line: it holds no newline.
    pub open spec fn is_single_line(&self) -> bool {
        !self.description@.contains('\n')
    }
}

/// Subtraction that stops at zero never goes below it: it is the plain
/// difference where that is not negative, and 0 otherwise.
pub proof fn lemma_floor_sub_never_negative(a: int, b: int)
    ensures
        floor_sub(a, b) >= 0,
        a >= b ==> floor_sub(a, b) == a - b,
        a < b ==> floor_sub(a, b) == 0,
{
}

/// The difference of two corners is that of their coordinates, each stopped
/// at zero, with 0 for a coordinate that is missing.
pub proof fn lemma_difference_of_corners(a: VerticeOption, b: VerticeOption)
    ensures
        a.minus(b).x == floor_sub(coordinate(a.x), coordinate(b.x)),
        a.minus(b).y == floor_sub(coordinate(a.y), coordinate(b.y)),
{
}

/// The height of a bounding box is never negative: it is 0 where the bottom
/// left corner lies above the top left one, and a missing coordinate counts
/// as 0.
pub proof fn lemma_height_never_negative(v: Vertices)
    ensures
        v.spec_height() >= 0,
        coordinate(v.bottom_left.y) < coordinate(v.top_left.y) ==> v.spec_height() == 0,
        coordinate(v.bottom_left.y) >= coordinate(v.top_left.y) ==> v.spec_height() == coordinate(
            v.bottom_left.y,
        ) - coordinate(v.top_left.y),
        v.bottom_left.y is None ==> v.spec_height() == 0,
        v.top_left.y is None ==> v.spec_height() == coordinate(v.bottom_left.y),
{
}

} // verus!
