use vstd::prelude::*;

verus! {

/// The fewest bytes an item name may have once surrounding whitespace is
/// removed.
pub const MIN_ITEM_NAME_LEN: usize = 3;

/// The fewest bytes a search term may have once surrounding whitespace is
/// removed.
pub const MIN_SEARCH_TERM_LEN: usize = 2;

/// The smallest quantity an item may be stored with.
pub const MIN_QUANTITY: i32 = 1;

/// The page shown when a search names none.
pub const DEFAULT_PAGE: u32 = 1;

/// The page size used when a search names none.
pub const DEFAULT_PAGE_SIZE: u32 = 10;

/// Whether `c` has the Unicode `White_Space` property, which is what
/// `char::is_whitespace` tests.
pub open spec fn is_white_space(c: char) -> bool {
    let u = c as u32;
    ||| 0x09 <= u <= 0x0d
    ||| u == 0x20
    ||| u == 0x85
    ||| u == 0xa0
    ||| u == 0x1680
    ||| 0x2000 <= u <= 0x200a
    ||| u == 0x2028
    ||| u == 0x2029
    ||| u == 0x202f
    ||| u == 0x205f
    ||| u == 0x3000
}

/// `s` without its leading whitespace.
pub open spec fn trim_start(s: Seq<char>) -> Seq<char>
    decreases s.len(),
{
    if s.len() > 0 && is_white_space(s[0]) {
        trim_start(s.drop_first())
    } else {
        s
    }
}

/// `s` without its trailing whitespace.
pub open spec fn trim_end(s: Seq<char>) -> Seq<char>
    decreases s.len(),
{
    if s.len() > 0 && is_white_space(s.last()) {
        trim_end(s.drop_last())
    } else {
        s
    }
}

/// `s` without leading and trailing whitespace.
pub open spec fn trimmed(s: Seq<char>) -> Seq<char> {
    trim_end(trim_start(s))
}

/// Relies on `str::trim`: the string without leading and trailing
/// characters of the Unicode `White_Space` property.
#[verifier::external_body]
fn trim_str(s: &str) -> (r: &str)
    ensures
        r@ == trimmed(s@),
{
    s.trim()
}

/// The length in bytes of `s` without surrounding whitespace.
pub open spec fn trimmed_byte_len(s: Seq<char>) -> usize {
    vstd::utf8::encode_utf8(trimmed(s)).len() as usize
}

/// Whether an already trimmed item name is long enough.
pub fn trimmed_name_long_enough(trimmed_name: &str) -> (r: bool)
    ensures
        r == (trimmed_name.len() >= MIN_ITEM_NAME_LEN),
{
    trimmed_name.len() >= MIN_ITEM_NAME_LEN
}

/// Whether an item name is long enough once trimmed.
pub fn item_name_valid(name: &str) -> (r: bool)
    ensures
        r == (trimmed_byte_len(name@) >= MIN_ITEM_NAME_LEN),
{
    trimmed_name_long_enough(trim_str(name))
}

/// Whether an already trimmed search term is long enough.
pub fn trimmed_term_long_enough(trimmed_term: &str) -> (r: bool)
    ensures
        r == (trimmed_term.len() >= MIN_SEARCH_TERM_LEN),
{
    trimmed_term.len() >= MIN_SEARCH_TERM_LEN
}

/// Whether a search term is long enough once trimmed.
pub fn search_term_valid(term: &str) -> (r: bool)
    ensures
        r == (trimmed_byte_len(term@) >= MIN_SEARCH_TERM_LEN),
{
    trimmed_term_long_enough(trim_str(term))
}

/// Whether a quantity may be stored.
pub fn quantity_valid(quantity: i32) -> (r: bool)
    ensures
        r == (quantity >= MIN_QUANTITY),
{
    quantity >= MIN_QUANTITY
}

/// The row limit and offset of a search page: pages count from 1, and an
/// absent page or page size takes its default. Page 0 has no window.
pub fn search_window(page: Option<u32>, page_size: Option<u32>) -> (r: Option<(u32, u64)>)
    ensures
        ({
            let p = match page {
                Some(p) => p,
                None => DEFAULT_PAGE,
            };
            let s = match page_size {
                Some(s) => s,
                None => DEFAULT_PAGE_SIZE,
            };
            r == if p == 0 {
                None
            } else {
                Some((s, ((p - 1) * s) as u64))
            }
        }),
{
    let p: u32 = match page {
        Some(p) => p,
        None => DEFAULT_PAGE,
    };
    let s: u32 = match page_size {
        Some(s) => s,
        None => DEFAULT_PAGE_SIZE,
    };
    if p == 0 {
        return None;
    }
    let skipped: u64 = (p - 1) as u64;
    assert(skipped * (s as u64) <= 0xffff_ffffu64 * 0xffff_ffffu64) by (nonlinear_arith)
        requires
            skipped <= 0xffff_ffff,
            s <= 0xffff_ffff,
    ;
    let offset: u64 = skipped * (s as u64);
    Some((s, offset))
}

} // verus!
