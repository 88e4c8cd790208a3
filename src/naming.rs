//! Object keys for uploaded meal images.

use vstd::prelude::*;

verus! {

/// The character of a decimal digit.
pub open spec fn digit_char(d: nat) -> char {
    if d == 0 { '0' }
    else if d == 1 { '1' }
    else if d == 2 { '2' }
    else if d == 3 { '3' }
    else if d == 4 { '4' }
    else if d == 5 { '5' }
    else if d == 6 { '6' }
    else if d == 7 { '7' }
    else if d == 8 { '8' }
    else { '9' }
}

/// The decimal digits of a natural number, most significant first.
pub open spec fn digits_of(n: nat) -> Seq<char>
    decreases n,
{
    if n < 10 {
        seq![digit_char(n)]
    } else {
        digits_of(n / 10).push(digit_char(n % 10))
    }
}

/// The decimal text of an integer, with a leading `-` when negative.
pub open spec fn decimal(n: int) -> Seq<char> {
    if n < 0 {
        seq!['-'] + digits_of((-n) as nat)
    } else {
        digits_of(n as nat)
    }
}

/// The view of an optional string slice.
pub open spec fn opt_view(o: Option<&str>) -> Option<Seq<char>> {
    match o {
        Some(s) => Some(s@),
        None => None,
    }
}

/// Whether an upload mode selects the nutrition-label scheme.
pub open spec fn is_label_mode(mode: Option<Seq<char>>) -> bool {
    mode == Some("label"@)
}

pub open spec fn folder_of(mode: Option<Seq<char>>) -> Seq<char> {
    if is_label_mode(mode) {
        "meal-labels"@
    } else {
        "meal-images"@
    }
}

pub open spec fn prefix_of(mode: Option<Seq<char>>) -> Seq<char> {
    if is_label_mode(mode) {
        "meal_label"@
    } else {
        "meal_image"@
    }
}

/// The file name: the caller's name after the prefix, or else one made of the
/// user and the time in milliseconds since the epoch.
pub open spec fn filename_of(
    mode: Option<Seq<char>>,
    image_name: Option<Seq<char>>,
    user_id: Seq<char>,
    timestamp_ms: int,
) -> Seq<char> {
    match image_name {
        Some(name) => prefix_of(mode) + "_"@ + name,
        None => prefix_of(mode) + "_"@ + user_id + "_"@ + decimal(timestamp_ms) + ".jpg"@,
    }
}

pub open spec fn key_of(
    mode: Option<Seq<char>>,
    image_name: Option<Seq<char>>,
    user_id: Seq<char>,
    timestamp_ms: int,
) -> Seq<char> {
    folder_of(mode) + "/"@ + filename_of(mode, image_name, user_id, timestamp_ms)
}

/// Where an uploaded object is stored.
#[derive(Debug)]
pub struct StorageKey {
    pub folder: String,
    pub filename: String,
    pub key: String,
}

fn digit_text(d: u64) -> (r: &'static str)
    requires
        d < 10,
    ensures
        r@ == seq![digit_char(d as nat)],
{
    proof {
        reveal_strlit("0");
        reveal_strlit("1");
        reveal_strlit("2");
        reveal_strlit("3");
        reveal_strlit("4");
        reveal_strlit("5");
        reveal_strlit("6");
        reveal_strlit("7");
        reveal_strlit("8");
        reveal_strlit("9");
    }
    let r = if d == 0 { "0" }
    else if d == 1 { "1" }
    else if d == 2 { "2" }
    else if d == 3 { "3" }
    else if d == 4 { "4" }
    else if d == 5 { "5" }
    else if d == 6 { "6" }
    else if d == 7 { "7" }
    else if d == 8 { "8" }
    else { "9" };
    assert(r@ =~= seq![digit_char(d as nat)]);
    r
}

fn natural_text(n: u64) -> (r: String)
    ensures
        r@ == digits_of(n as nat),
    decreases n,
{
    if n < 10 {
        String::from_str(digit_text(n))
    } else {
        let front = natural_text(n / 10);
        let r = front.concat(digit_text(n % 10));
        assert(r@ =~= digits_of(n as nat));
        r
    }
}

/// The decimal text of an integer.
pub fn decimal_text(n: i64) -> (r: String)
    ensures
        r@ == decimal(n as int),
{
    if n < 0 {
        let magnitude: u64 = if n == i64::MIN {
            9223372036854775808u64
        } else {
            (-n) as u64
        };
        let digits = natural_text(magnitude);
        proof {
            reveal_strlit("-");
        }
        let r = String::from_str("-").concat(digits.as_str());
        assert(r@ =~= decimal(n as int));
        r
    } else {
        natural_text(n as u64)
    }
}

/// Whether `mode` is the label mode.
fn label_mode(mode: Option<&str>) -> (r: bool)
    ensures
        r == is_label_mode(opt_view(mode)),
{
    match mode {
        Some(m) => String::from_str(m) == String::from_str("label"),
        None => false,
    }
}

/// The folder, file name and key under which an upload is stored.
pub fn resolve(mode: Option<&str>, image_name: Option<&str>, user_id: &str, timestamp_ms: i64) -> (r:
    StorageKey)
    ensures
        r.folder@ == folder_of(opt_view(mode)),
        r.filename@ == filename_of(opt_view(mode), opt_view(image_name), user_id@, timestamp_ms as int),
        r.key@ == key_of(opt_view(mode), opt_view(image_name), user_id@, timestamp_ms as int),
        r.key@ == r.folder@ + "/"@ + r.filename@,
{
    let label = label_mode(mode);
    let folder = if label {
        String::from_str("meal-labels")
    } else {
        String::from_str("meal-images")
    };
    let prefix = if label {
        String::from_str("meal_label")
    } else {
        String::from_str("meal_image")
    };
    let filename = match image_name {
        Some(name) => prefix.concat("_").concat(name),
        None => {
            let stamp = decimal_text(timestamp_ms);
            prefix.concat("_").concat(user_id).concat("_").concat(stamp.as_str()).concat(".jpg")
        },
    };
    let key = folder.clone().concat("/").concat(filename.as_str());
    let r = StorageKey { folder, filename, key };
    assert(r.filename@ =~= filename_of(opt_view(mode), opt_view(image_name), user_id@, timestamp_ms as int));
    assert(r.key@ =~= key_of(opt_view(mode), opt_view(image_name), user_id@, timestamp_ms as int));
    r
}

} // verus!

verus! {

/// The key depends on the inputs alone, so two resolutions of the same inputs
/// agree; and the label folder is chosen exactly when the mode is `"label"`.
pub proof fn lemma_resolution_is_determined(
    a: StorageKey,
    b: StorageKey,
    mode: Option<Seq<char>>,
    image_name: Option<Seq<char>>,
    user_id: Seq<char>,
    timestamp_ms: int,
)
    requires
        a.key@ == key_of(mode, image_name, user_id, timestamp_ms),
        b.key@ == key_of(mode, image_name, user_id, timestamp_ms),
        a.folder@ == folder_of(mode),
    ensures
        a.key@ == b.key@,
        a.folder@ == "meal-labels"@ <==> mode == Some("label"@),
{
    reveal_strlit("meal-labels");
    reveal_strlit("meal-images");
    assert("meal-labels"@[6] != "meal-images"@[6]);
}

} // verus!
