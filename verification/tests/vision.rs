use pen_to_todoist::error::PipelineError;
use pen_to_todoist::http::{Body, Field, HttpRequest, Method};
use pen_to_todoist::text::{contains_char, split_nonempty_lines};
use pen_to_todoist::types::vision_api::{
    ApiError, BoundingPoly, Content, EntityAnnotation, FullTextAnnotation, Item, Request,
    Requests, Response, Responses, Vertice, VerticeOption, Vertices, TEXT_DETECTION,
};
use pen_to_todoist::vision_api::{
    classify, find_largest_index, find_largest_item, init_request, interpret, interpret_reply,
    read_items, TodoItem, VisionResponse, VISION_API_URL,
};

fn corner(x: u32, y: u32) -> VerticeOption {
    VerticeOption { x: Some(x), y: Some(y) }
}

fn missing() -> VerticeOption {
    VerticeOption { x: None, y: None }
}

fn annotation(text: &str, top_left: VerticeOption, bottom_left: VerticeOption) -> EntityAnnotation {
    EntityAnnotation {
        description: text.to_string(),
        bounding_poly: BoundingPoly {
            vertices: Vertices {
                top_left,
                top_right: missing(),
                bottom_right: missing(),
                bottom_left,
            },
        },
    }
}

fn of_height(text: &str, height: u32) -> EntityAnnotation {
    annotation(text, corner(0, 0), corner(0, height))
}

fn full_text(text: &str) -> Option<FullTextAnnotation> {
    Some(FullTextAnnotation { text: text.to_string() })
}

fn bad_image() -> Option<ApiError> {
    Some(ApiError { code: 3, message: "Bad image data.".to_string() })
}

fn strings(items: &[&str]) -> Vec<String> {
    items.iter().map(|s| s.to_string()).collect()
}

#[test]
fn url_of_the_service() {
    assert_eq!(VISION_API_URL, "https://vision.googleapis.com/v1/images:annotate");
}

#[test]
fn request_batch_holds_one_image_and_asks_for_text() {
    let batch = Requests::from("aGVsbG8=".to_string());
    assert_eq!(batch.requests.len(), 1);
    assert_eq!(batch.requests[0].image.content, "aGVsbG8=");
    assert_eq!(batch.requests[0].features.len(), 1);
    assert_eq!(batch.requests[0].features[0].feature_type, "TEXT_DETECTION");
    let one = Request::from("aGVsbG8=".to_string());
    assert_eq!(batch.requests[0], one);
}

#[test]
fn annotate_request_posts_json_under_the_bearer_token() {
    let request = init_request(VISION_API_URL, "{\"requests\":[]}".to_string(), "ya29.token");
    assert_eq!(
        request,
        HttpRequest {
            method: Method::Post,
            url: "https://vision.googleapis.com/v1/images:annotate".to_string(),
            headers: vec![
                Field::new("Authorization", "Bearer ya29.token"),
                Field::new("Content-Type", "application/json"),
            ],
            body: Body::Text("{\"requests\":[]}".to_string()),
        }
    );
}

#[test]
fn content_and_item() {
    assert_eq!(Content::new("abc".to_string()).content, "abc");
    assert_eq!(Item::default().feature_type, TEXT_DETECTION);
    assert_eq!(TEXT_DETECTION, "TEXT_DETECTION");
}

#[test]
fn contains_char_finds_a_newline() {
    assert!(contains_char("a\nb", '\n'));
    assert!(contains_char("\n", '\n'));
    assert!(!contains_char("ab", '\n'));
    assert!(!contains_char("", '\n'));
    assert!(contains_char("gr\u{fc}n", '\u{fc}'));
}

#[test]
fn list_mode_yields_lines_in_order() {
    assert_eq!(split_nonempty_lines("Milk\nEggs\nBread"), strings(&["Milk", "Eggs", "Bread"]));
    let response = Response {
        text_annotations: Some(vec![of_height("Milk", 10)]),
        full_text_annotation: full_text("Milk\nEggs\nBread"),
        error: None,
    };
    assert_eq!(
        interpret(response, false),
        Ok(TodoItem::List(strings(&["Milk", "Eggs", "Bread"])))
    );
}

#[test]
fn empty_lines_are_no_items() {
    assert_eq!(split_nonempty_lines(""), Vec::<String>::new());
    assert_eq!(split_nonempty_lines("\n"), Vec::<String>::new());
    assert_eq!(split_nonempty_lines("\n\n\n"), Vec::<String>::new());
    assert_eq!(split_nonempty_lines("a\n"), strings(&["a"]));
    assert_eq!(split_nonempty_lines("\na"), strings(&["a"]));
    assert_eq!(split_nonempty_lines("a\n\nb"), strings(&["a", "b"]));
    assert_eq!(split_nonempty_lines("a\n\n\nb\n\n"), strings(&["a", "b"]));
    assert_eq!(split_nonempty_lines("no newline"), strings(&["no newline"]));
}

#[test]
fn lines_keep_every_other_character() {
    assert_eq!(
        split_nonempty_lines("\u{410}\u{43c}\u{443} Thomas\nChelsea Cook\r\nK\tT"),
        strings(&["\u{410}\u{43c}\u{443} Thomas", "Chelsea Cook\r", "K\tT"])
    );
}

#[test]
fn list_mode_needs_no_annotations() {
    let response = Response {
        text_annotations: None,
        full_text_annotation: full_text("Milk\nEggs"),
        error: None,
    };
    assert_eq!(interpret(response, false), Ok(TodoItem::List(strings(&["Milk", "Eggs"]))));
}

#[test]
fn largest_mode_yields_the_higher_of_two() {
    let annotations = vec![of_height("small", 10), of_height("large", 50)];
    assert_eq!(find_largest_index(&annotations), Some(1));
    assert_eq!(find_largest_item(annotations.clone()), Ok("large".to_string()));
    let response = Response {
        text_annotations: Some(annotations),
        full_text_annotation: full_text("small\nlarge"),
        error: None,
    };
    assert_eq!(interpret(response, true), Ok(TodoItem::Single("large".to_string())));
}

#[test]
fn largest_mode_yields_the_higher_whichever_comes_first() {
    let annotations = vec![of_height("large", 50), of_height("small", 10)];
    assert_eq!(find_largest_index(&annotations), Some(0));
    assert_eq!(find_largest_item(annotations), Ok("large".to_string()));
}

#[test]
fn text_with_a_newline_is_never_the_largest() {
    let annotations = vec![
        of_height("whole\npicture", 1000),
        of_height("Mythos", 40),
        of_height("beer", 12),
    ];
    assert_eq!(find_largest_index(&annotations), Some(1));
    assert_eq!(find_largest_item(annotations), Ok("Mythos".to_string()));
}

#[test]
fn first_of_equally_high_annotations_wins() {
    let annotations = vec![
        of_height("low", 5),
        of_height("first", 30),
        of_height("second", 30),
        of_height("third", 30),
    ];
    assert_eq!(find_largest_index(&annotations), Some(1));
    assert_eq!(find_largest_item(annotations), Ok("first".to_string()));
}

#[test]
fn a_box_of_height_zero_can_be_the_largest() {
    let annotations = vec![of_height("flat", 0), of_height("flat too", 0)];
    assert_eq!(find_largest_item(annotations), Ok("flat".to_string()));
}

#[test]
fn nothing_to_choose_from_is_an_error() {
    assert_eq!(find_largest_index(&Vec::new()), None);
    assert_eq!(find_largest_item(Vec::new()), Err(PipelineError::NoCandidate));
    let annotations = vec![of_height("a\nb", 10), of_height("\n", 20)];
    assert_eq!(find_largest_index(&annotations), None);
    assert_eq!(find_largest_item(annotations.clone()), Err(PipelineError::NoCandidate));
    let response = Response {
        text_annotations: Some(annotations),
        full_text_annotation: full_text("a\nb"),
        error: None,
    };
    assert_eq!(interpret(response, true), Err(PipelineError::NoCandidate));
}

#[test]
fn difference_of_corners_stops_at_zero() {
    assert_eq!(corner(7, 50) - corner(2, 10), Vertice { x: 5, y: 40 });
    assert_eq!(corner(2, 10) - corner(7, 50), Vertice { x: 0, y: 0 });
    assert_eq!(corner(2, 50) - corner(7, 10), Vertice { x: 0, y: 40 });
    assert_eq!(corner(0, 0) - corner(u32::MAX, u32::MAX), Vertice { x: 0, y: 0 });
    assert_eq!(
        corner(u32::MAX, u32::MAX) - corner(0, 0),
        Vertice { x: u32::MAX, y: u32::MAX }
    );
}

#[test]
fn missing_coordinates_count_as_zero() {
    assert_eq!(missing() - missing(), Vertice { x: 0, y: 0 });
    assert_eq!(corner(3, 4) - missing(), Vertice { x: 3, y: 4 });
    assert_eq!(missing() - corner(3, 4), Vertice { x: 0, y: 0 });
    let half = VerticeOption { x: None, y: Some(9) };
    assert_eq!(half - corner(1, 2), Vertice { x: 0, y: 7 });
}

#[test]
fn height_is_never_negative() {
    let upside_down = annotation("a", corner(0, 50), corner(0, 10));
    assert_eq!(upside_down.bounding_poly.vertices.height(), 0);
    let no_bottom = annotation("b", corner(0, 50), missing());
    assert_eq!(no_bottom.bounding_poly.vertices.height(), 0);
    let no_top = annotation("c", missing(), corner(0, 50));
    assert_eq!(no_top.bounding_poly.vertices.height(), 50);
    let nothing = annotation("d", missing(), missing());
    assert_eq!(nothing.bounding_poly.vertices.height(), 0);
    let upright = annotation("e", corner(3, 10), corner(3, 50));
    assert_eq!(upright.bounding_poly.vertices.height(), 40);
}

#[test]
fn upside_down_box_loses_against_an_upright_one() {
    let annotations = vec![
        annotation("upside down", corner(0, 500), corner(0, 10)),
        annotation("upright", corner(0, 10), corner(0, 11)),
    ];
    assert_eq!(find_largest_item(annotations), Ok("upright".to_string()));
}

#[test]
fn error_beside_full_text_is_malformed() {
    for single_todo in [false, true] {
        let response = Response {
            text_annotations: None,
            full_text_annotation: full_text("Milk"),
            error: bad_image(),
        };
        assert_eq!(interpret(response, single_todo), Err(PipelineError::MalformedShape));
        let response = Response {
            text_annotations: Some(vec![of_height("Milk", 10)]),
            full_text_annotation: full_text("Milk"),
            error: bad_image(),
        };
        assert_eq!(interpret(response, single_todo), Err(PipelineError::MalformedShape));
    }
}

#[test]
fn neither_error_nor_full_text_is_malformed() {
    for single_todo in [false, true] {
        let response =
            Response { text_annotations: None, full_text_annotation: None, error: None };
        assert_eq!(interpret(response, single_todo), Err(PipelineError::MalformedShape));
        let response = Response {
            text_annotations: Some(vec![of_height("Milk", 10)]),
            full_text_annotation: None,
            error: None,
        };
        assert_eq!(interpret(response, single_todo), Err(PipelineError::MalformedShape));
    }
}

#[test]
fn error_beside_annotations_is_malformed() {
    let response = Response {
        text_annotations: Some(vec![of_height("Milk", 10)]),
        full_text_annotation: None,
        error: bad_image(),
    };
    assert_eq!(interpret(response, true), Err(PipelineError::MalformedShape));
}

#[test]
fn largest_mode_without_annotations_is_malformed() {
    let response = Response {
        text_annotations: None,
        full_text_annotation: full_text("Milk"),
        error: None,
    };
    assert_eq!(interpret(response, true), Err(PipelineError::MalformedShape));
}

#[test]
fn error_alone_is_passed_on_with_code_and_message() {
    for single_todo in [false, true] {
        let response =
            Response { text_annotations: None, full_text_annotation: None, error: bad_image() };
        assert_eq!(
            interpret(response, single_todo),
            Err(PipelineError::VisionApi { code: 3, message: "Bad image data.".to_string() })
        );
    }
}

#[test]
fn classify_sorts_into_two_variants() {
    let failed =
        Response { text_annotations: None, full_text_annotation: None, error: bad_image() };
    assert_eq!(
        classify(failed, false),
        Ok(VisionResponse::Failed { code: 3, message: "Bad image data.".to_string() })
    );
    let read = Response {
        text_annotations: Some(vec![of_height("Milk", 10)]),
        full_text_annotation: full_text("Milk"),
        error: None,
    };
    assert_eq!(
        classify(read, true),
        Ok(VisionResponse::Interpreted {
            text_annotations: Some(vec![of_height("Milk", 10)]),
            full_text_annotation: FullTextAnnotation { text: "Milk".to_string() },
        })
    );
    let empty = Response { text_annotations: None, full_text_annotation: None, error: None };
    assert_eq!(classify(empty, false), Err(PipelineError::MalformedShape));
}

#[test]
fn read_items_reduces_a_well_formed_reply() {
    let read = VisionResponse::Interpreted {
        text_annotations: Some(vec![of_height("Milk", 10), of_height("Eggs", 11)]),
        full_text_annotation: FullTextAnnotation { text: "Milk\nEggs\n".to_string() },
    };
    assert_eq!(read_items(read.clone(), false), Ok(TodoItem::List(strings(&["Milk", "Eggs"]))));
    assert_eq!(read_items(read, true), Ok(TodoItem::Single("Eggs".to_string())));
    let failed = VisionResponse::Failed { code: 7, message: "no".to_string() };
    assert_eq!(
        read_items(failed, true),
        Err(PipelineError::VisionApi { code: 7, message: "no".to_string() })
    );
    let unannotated = VisionResponse::Interpreted {
        text_annotations: None,
        full_text_annotation: FullTextAnnotation { text: "Milk".to_string() },
    };
    assert_eq!(read_items(unannotated, true), Err(PipelineError::MalformedShape));
}

#[test]
fn first_response_of_a_reply_counts() {
    let reply = Responses {
        responses: vec![
            Response {
                text_annotations: None,
                full_text_annotation: full_text("first"),
                error: None,
            },
            Response {
                text_annotations: None,
                full_text_annotation: full_text("second"),
                error: None,
            },
            Response { text_annotations: None, full_text_annotation: None, error: bad_image() },
        ],
    };
    assert_eq!(interpret_reply(reply, false), Ok(TodoItem::List(strings(&["first"]))));
}

#[test]
fn titles_of_a_single_item_and_of_a_list() {
    assert_eq!(TodoItem::Single("Mythos".to_string()).into_titles(), strings(&["Mythos"]));
    assert_eq!(
        TodoItem::List(strings(&["Milk", "Eggs"])).into_titles(),
        strings(&["Milk", "Eggs"])
    );
    assert_eq!(TodoItem::List(Vec::new()).into_titles(), Vec::<String>::new());
}
