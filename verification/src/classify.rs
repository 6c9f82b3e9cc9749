//! The integer side of an image classifier: the order of the classes by
//! their scores, the planar layout of a tensor of pixels, and the JSON
//! answer with the best classes. A score is the bit pattern of a
//! probability, which for values that are not negative orders as the
//! probabilities do; the arithmetic on the probabilities themselves is not
//! part of this library.

use vstd::prelude::*;
use vstd::string::*;
use crate::json::{items_of, lemma_array_view, texts, Json, JsonView};

verus! {

/// Whether `order` lists the classes below `count`, each once, from the
/// highest score to the lowest, and classes of equal score in the order of
/// their numbers.
pub open spec fn ranks_first(scores: Seq<u32>, order: Seq<usize>, count: int) -> bool {
    &&& order.len() == count
    &&& forall|i: int| 0 <= i < order.len() ==> (#[trigger] order[i]) < count
    &&& forall|i: int, j: int|
        0 <= i < j < order.len() ==> #[trigger] order[i] != #[trigger] order[j]
    &&& forall|i: int, j: int|
        0 <= i < j < order.len() ==> scores[#[trigger] order[i] as int]
            >= scores[#[trigger] order[j] as int]
    &&& forall|i: int, j: int|
        0 <= i < j < order.len() && scores[#[trigger] order[i] as int]
            == scores[#[trigger] order[j] as int] ==> order[i] < order[j]
}

/// Whether `order` is the ranking of all classes: it lists every class
/// once, from the highest score to the lowest, and classes of equal score
/// in the order of their numbers.
pub open spec fn is_ranking(scores: Seq<u32>, order: Seq<usize>) -> bool {
    ranks_first(scores, order, scores.len() as int)
}

/// The classes in the order of their scores, highest first; classes of
/// equal score stay in the order of their numbers.
pub fn rank(scores: &Vec<u32>) -> (order: Vec<usize>)
    ensures
        is_ranking(scores@, order@),
{
    let mut order: Vec<usize> = Vec::new();
    let mut class: usize = 0;
    while class < scores.len()
        invariant
            class <= scores@.len(),
            ranks_first(scores@, order@, class as int),
        decreases scores@.len() - class,
    {
        let mut at: usize = order.len();
        while at > 0 && scores[order[at - 1]] < scores[class]
            invariant
                at <= order@.len(),
                class < scores@.len(),
                ranks_first(scores@, order@, class as int),
                forall|j: int|
                    at <= j < order@.len() ==> scores@[#[trigger] order@[j] as int]
                        < scores@[class as int],
            decreases at,
        {
            at = at - 1;
        }
        let ghost before = order@;
        order.insert(at, class);
        proof {
            let after = order@;
            assert forall|i: int| 0 <= i < after.len() implies (#[trigger] after[i]) < class + 1 by {
                if i < at {
                    assert(after[i] == before[i]);
                } else if i > at {
                    assert(after[i] == before[i - 1]);
                }
            }
            assert forall|i: int, j: int| 0 <= i < j < after.len() implies #[trigger] after[i]
                != #[trigger] after[j] && scores@[after[i] as int] >= scores@[after[j] as int] && (
            scores@[after[i] as int] == scores@[after[j] as int] ==> after[i] < after[j]) by {
                let a = if i < at {
                    i
                } else {
                    i - 1
                };
                let b = if j < at {
                    j
                } else {
                    j - 1
                };
                if i != at && j != at {
                    assert(after[i] == before[a]);
                    assert(after[j] == before[b]);
                } else if i == at {
                    assert(after[j] == before[b]);
                    assert(before[b] < class);
                } else {
                    assert(after[i] == before[a]);
                    assert(before[a] < class);
                    if at > 0 {
                        assert(scores@[before[at - 1] as int] >= scores@[class as int]);
                        if a < at - 1 {
                            assert(scores@[before[a] as int] >= scores@[before[at - 1] as int]);
                        }
                    }
                }
            }
        }
        class = class + 1;
    }
    order
}

/// The planar layout of a tensor of pixels. The pixels come with their
/// three channels side by side; in the planar layout the first channel of
/// every pixel comes first, then the second of every pixel, then the third.
/// Values behind the last whole pixel are zero.
pub open spec fn planar(interleaved: Seq<u32>) -> Seq<u32> {
    let pixels = interleaved.len() as int / 3;
    Seq::new(
        interleaved.len(),
        |at: int|
            if 0 <= at < 3 * pixels {
                interleaved[3 * (at % pixels) + at / pixels]
            } else {
                0u32
            },
    )
}

proof fn lemma_plane_position(pixels: int, channel: int, pixel: int)
    requires
        0 <= pixel < pixels,
        0 <= channel,
    ensures
        (pixels * channel + pixel) % pixels == pixel,
        (pixels * channel + pixel) / pixels == channel,
{
    assert(pixels * channel + pixel == channel * pixels + pixel) by (nonlinear_arith);
    vstd::arithmetic::div_mod::lemma_fundamental_div_mod_converse(
        pixels * channel + pixel,
        pixels,
        channel,
        pixel,
    );
}

/// Brings a tensor of pixels into the planar layout.
pub fn to_planar(interleaved: &Vec<u32>) -> (planes: Vec<u32>)
    ensures
        planes@ == planar(interleaved@),
{
    let len: usize = interleaved.len();
    let pixels: usize = len / 3;
    let mut planes: Vec<u32> = Vec::new();
    let mut channel: usize = 0;
    while channel < 3
        invariant
            channel <= 3,
            len == interleaved@.len(),
            pixels == interleaved@.len() / 3,
            planes@.len() == pixels * channel,
            planes@.len() <= interleaved@.len(),
            forall|at: int|
                0 <= at < planes@.len() ==> #[trigger] planes@[at] == planar(interleaved@)[at],
        decreases 3 - channel,
    {
        let mut pixel: usize = 0;
        while pixel < pixels
            invariant
                channel < 3,
                pixel <= pixels,
                len == interleaved@.len(),
                pixels == interleaved@.len() / 3,
                planes@.len() == pixels * channel + pixel,
                planes@.len() <= interleaved@.len(),
                forall|at: int|
                    0 <= at < planes@.len() ==> #[trigger] planes@[at] == planar(interleaved@)[at],
            decreases pixels - pixel,
        {
            proof {
                lemma_plane_position(pixels as int, channel as int, pixel as int);
                assert(pixels * channel + pixel < 3 * pixels) by (nonlinear_arith)
                    requires
                        channel < 3,
                        pixel < pixels,
                ;
                assert(3 * pixels <= interleaved@.len());
            }
            planes.push(interleaved[3 * pixel + channel]);
            pixel = pixel + 1;
        }
        proof {
            assert(pixels * channel + pixels == pixels * (channel + 1)) by (nonlinear_arith);
            assert(pixels * (channel + 1) <= 3 * pixels) by (nonlinear_arith)
                requires
                    channel < 3,
            ;
        }
        channel = channel + 1;
    }
    while planes.len() < interleaved.len()
        invariant
            pixels == interleaved@.len() / 3,
            3 * pixels <= planes@.len() <= interleaved@.len(),
            forall|at: int|
                0 <= at < planes@.len() ==> #[trigger] planes@[at] == planar(interleaved@)[at],
        decreases interleaved@.len() - planes@.len(),
    {
        planes.push(0);
    }
    assert(planes@ =~= planar(interleaved@));
    planes
}

/// The value of a decimal digit, or `None` for every other character.
pub open spec fn spec_digit(c: char) -> Option<nat> {
    if '0' <= c <= '9' {
        Some((c as nat - '0' as nat) as nat)
    } else {
        None
    }
}

/// The number that a text of decimal digits stands for; `None` for the
/// empty text and for a text with any other character.
pub open spec fn spec_decimal(text: Seq<char>) -> Option<nat>
    decreases text.len(),
{
    if text.len() == 0 {
        None
    } else {
        match spec_digit(text.last()) {
            None => None,
            Some(digit) => if text.len() == 1 {
                Some(digit)
            } else {
                match spec_decimal(text.drop_last()) {
                    None => None,
                    Some(front) => Some(front * 10 + digit),
                }
            },
        }
    }
}

/// The number of results that a request asks for under `top_k`: the number
/// there where it is a whole number that is not negative, cut off at the
/// greatest `usize`, and 5 in every other case.
pub open spec fn spec_top_k(parameters: JsonView) -> nat {
    match parameters.field("top_k"@) {
        Some(JsonView::Number(text)) => match spec_decimal(text) {
            Some(count) => if count <= usize::MAX {
                count
            } else {
                usize::MAX as nat
            },
            None => 5,
        },
        _ => 5,
    }
}

/// The value of a decimal digit.
fn digit(c: char) -> (value: Option<u8>)
    ensures
        match value {
            Some(value) => spec_digit(c) == Some(value as nat),
            None => spec_digit(c) is None,
        },
{
    if '0' <= c && c <= '9' {
        Some(((c as u32) - ('0' as u32)) as u8)
    } else {
        None
    }
}

/// The number that a text of decimal digits stands for, cut off at the
/// greatest `usize`.
pub fn decimal(text: &str) -> (value: Option<usize>)
    ensures
        match value {
            Some(value) => spec_decimal(text@) matches Some(number) && value == (if number
                <= usize::MAX {
                number
            } else {
                usize::MAX as nat
            }),
            None => spec_decimal(text@) is None,
        },
{
    let len: usize = text.unicode_len();
    if len == 0 {
        return None;
    }
    let mut value: usize = 0;
    let mut at: usize = 0;
    while at < len
        invariant
            0 < len == text@.len(),
            at <= len,
            at > 0 ==> (spec_decimal(text@.subrange(0, at as int)) matches Some(number) && value == (
            if number <= usize::MAX {
                number
            } else {
                usize::MAX as nat
            })),
            at == 0 ==> value == 0,
        decreases len - at,
    {
        let d: u8 = match digit(text.get_char(at)) {
            None => {
                proof {
                    lemma_not_decimal(text@, at as int);
                }
                return None;
            },
            Some(d) => d,
        };
        proof {
            let front = text@.subrange(0, at as int);
            let next = text@.subrange(0, at + 1);
            assert(next.last() == text@[at as int]);
            assert(next.drop_last() =~= front);
        }
        value = if value > (usize::MAX - d as usize) / 10 {
            usize::MAX
        } else {
            value * 10 + d as usize
        };
        at = at + 1;
    }
    assert(text@.subrange(0, len as int) =~= text@);
    Some(value)
}

/// A text with a character that is no digit stands for no number.
proof fn lemma_not_decimal(text: Seq<char>, at: int)
    requires
        0 <= at < text.len(),
        spec_digit(text[at]) is None,
    ensures
        spec_decimal(text) is None,
    decreases text.len(),
{
    if at < text.len() - 1 {
        assert(text.drop_last()[at] == text[at]);
        lemma_not_decimal(text.drop_last(), at);
    }
}

/// The number of results that a request asks for under `top_k`.
pub fn top_k(parameters: &Json) -> (count: usize)
    ensures
        count == spec_top_k(parameters@),
{
    match parameters.get("top_k") {
        Some(Json::Number(text)) => match decimal(text.as_str()) {
            Some(count) => count,
            None => 5,
        },
        _ => 5,
    }
}

/// The character of a decimal digit.
pub open spec fn digit_char(digit: nat) -> char {
    if digit == 0 {
        '0'
    } else if digit == 1 {
        '1'
    } else if digit == 2 {
        '2'
    } else if digit == 3 {
        '3'
    } else if digit == 4 {
        '4'
    } else if digit == 5 {
        '5'
    } else if digit == 6 {
        '6'
    } else if digit == 7 {
        '7'
    } else if digit == 8 {
        '8'
    } else {
        '9'
    }
}

/// The decimal text of a number, without leading zeros.
pub open spec fn spec_decimal_text(number: nat) -> Seq<char>
    decreases number,
{
    if number < 10 {
        seq![digit_char(number)]
    } else {
        spec_decimal_text(number / 10).push(digit_char(number % 10))
    }
}

/// The text of one decimal digit.
fn digit_text(digit: usize) -> (text: &'static str)
    requires
        digit < 10,
    ensures
        text@ == seq![digit_char(digit as nat)],
{
    proof {
        reveal_strlit("0");
        reveal_strlit("1");
        reveal_strlit("2");
        reveal_strlit("3");
        reveal_strlit("4");
        reveal_strlit("5");
        reveal_strlit("6");
        reveal_strlit("7");
        reveal_strlit("8");
        reveal_strlit("9");
    }
    let text = match digit {
        0 => "0",
        1 => "1",
        2 => "2",
        3 => "3",
        4 => "4",
        5 => "5",
        6 => "6",
        7 => "7",
        8 => "8",
        _ => "9",
    };
    assert(text@ =~= seq![digit_char(digit as nat)]);
    text
}

/// The decimal text of a number, without leading zeros.
pub fn decimal_text(number: usize) -> (text: String)
    ensures
        text@ == spec_decimal_text(number as nat),
    decreases number,
{
    if number < 10 {
        digit_text(number).to_owned()
    } else {
        let mut text = decimal_text(number / 10);
        text.append(digit_text(number % 10));
        assert(text@ =~= spec_decimal_text(number as nat));
        text
    }
}

/// The label of a class: the string at the class's position in the list of
/// labels, and `unknown` where there is no string.
pub open spec fn spec_label(labels: Seq<JsonView>, class: int) -> Seq<char> {
    if 0 <= class < labels.len() && labels[class] is String {
        labels[class]->String_0
    } else {
        "unknown"@
    }
}

/// The label of a class.
pub fn label(labels: &Vec<Json>, class: usize) -> (text: String)
    ensures
        text@ == spec_label(items_of(labels@), class as int),
{
    if class < labels.len() {
        match labels[class].as_string() {
            Some(text) => text.clone(),
            None => "unknown".to_owned(),
        }
    } else {
        "unknown".to_owned()
    }
}

/// The probability of a class as a JSON number, and `null` for a class
/// that the list of probabilities does not reach.
pub open spec fn spec_probability(probabilities: Seq<Seq<char>>, class: int) -> JsonView {
    if 0 <= class < probabilities.len() {
        JsonView::Number(probabilities[class])
    } else {
        JsonView::Null
    }
}

/// One entry of a classification: the class, its probability and its
/// label, and the name of the image where one is given.
pub open spec fn spec_entry(
    class: usize,
    probabilities: Seq<Seq<char>>,
    labels: Seq<JsonView>,
    image_name: Option<Seq<char>>,
) -> JsonView {
    let entry = Map::<Seq<char>, JsonView>::empty().insert(
        "class"@,
        JsonView::Number(spec_decimal_text(class as nat)),
    ).insert("probability"@, spec_probability(probabilities, class as int)).insert(
        "label"@,
        JsonView::String(spec_label(labels, class as int)),
    );
    match image_name {
        Some(name) => JsonView::Object(entry.insert("image_name"@, JsonView::String(name))),
        None => JsonView::Object(entry),
    }
}

/// The classification of one image: an entry for each of the first `top_k`
/// classes of the order, or for all where the order has fewer.
pub open spec fn spec_classification(
    order: Seq<usize>,
    probabilities: Seq<Seq<char>>,
    labels: Seq<JsonView>,
    top_k: nat,
    image_name: Option<Seq<char>>,
) -> JsonView {
    let count = if top_k < order.len() {
        top_k
    } else {
        order.len()
    };
    JsonView::Array(
        Seq::new(count, |i: int| spec_entry(order[i], probabilities, labels, image_name)),
    )
}

/// The name of an image as the contract sees it.
pub open spec fn name_text(image_name: Option<&str>) -> Option<Seq<char>> {
    match image_name {
        Some(name) => Some(name@),
        None => None,
    }
}

/// One entry of a classification.
pub fn entry(
    class: usize,
    probabilities: &Vec<String>,
    labels: &Vec<Json>,
    image_name: Option<&str>,
) -> (entry: Json)
    ensures
        entry@ == spec_entry(class, texts(probabilities@), items_of(labels@), name_text(image_name)),
{
    let probability = if class < probabilities.len() {
        Json::Number(probabilities[class].clone())
    } else {
        Json::Null
    };
    let mut entry = Json::object();
    entry.set("class".to_owned(), Json::Number(decimal_text(class)));
    entry.set("probability".to_owned(), probability);
    entry.set("label".to_owned(), Json::String(label(labels, class)));
    match image_name {
        Some(name) => {
            entry.set("image_name".to_owned(), Json::String(name.to_owned()));
        },
        None => {},
    }
    entry
}

/// The classification of one image: the best `top_k` classes in the given
/// order, each with its probability and its label.
pub fn classification(
    order: &Vec<usize>,
    probabilities: &Vec<String>,
    labels: &Vec<Json>,
    top_k: usize,
    image_name: Option<&str>,
) -> (results: Json)
    ensures
        results@ == spec_classification(
            order@,
            texts(probabilities@),
            items_of(labels@),
            top_k as nat,
            name_text(image_name),
        ),
{
    broadcast use lemma_array_view;

    let count: usize = if top_k < order.len() {
        top_k
    } else {
        order.len()
    };
    let mut entries: Vec<Json> = Vec::new();
    let mut i: usize = 0;
    while i < count
        invariant
            i <= count <= order@.len(),
            entries@.len() == i,
            forall|j: int|
                0 <= j < i ==> (#[trigger] entries@[j])@ == spec_entry(
                    order@[j],
                    texts(probabilities@),
                    items_of(labels@),
                    name_text(image_name),
                ),
        decreases count - i,
    {
        entries.push(entry(order[i], probabilities, labels, image_name));
        i = i + 1;
    }
    assert(items_of(entries@) =~= spec_classification(
        order@,
        texts(probabilities@),
        items_of(labels@),
        top_k as nat,
        name_text(image_name),
    )->Array_0);
    Json::Array(entries)
}

} // verus!
