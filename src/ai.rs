//! Query expansion: the structured search directive, the instruction sent to
//! the text-generation service, and the framing of its reply.
use vstd::prelude::*;
use crate::json::{json_field, json_field_of, optional_text, optional_text_of, JsonField};
use crate::text::{matches_at, trim_text, trimmed};

verus! {

/// The structured search directive: a refined query and optional size and type filters.
#[derive(Debug, Clone)]
pub struct ExpandedQuery {
    pub query: String,
    pub img_size: Option<String>,
    pub img_type: Option<String>,
}

fn copy_option(o: &Option<String>) -> (r: Option<String>)
    ensures
        r == *o,
{
    match o {
        Some(s) => Some(s.clone()),
        None => None,
    }
}

impl ExpandedQuery {
    /// A field-by-field copy.
    pub fn duplicate(&self) -> (r: Self)
        ensures
            r == *self,
    {
        ExpandedQuery {
            query: self.query.clone(),
            img_size: copy_option(&self.img_size),
            img_type: copy_option(&self.img_type),
        }
    }
}

/// The instructions that open every expansion request.
pub const PROMPT_TEMPLATE: &'static str = r#"You are an AI Asset Scout. Your task is to take a user's short input and create ONE highly optimized search query with appropriate image filters.

Analyze the input and determine:
1. What the user wants (logo, product photo, icon, artwork, etc.)
2. The best single search query that will find a high-quality, relevant image
3. The appropriate Serper image filters

Available filters:
- img_size: "large" (high-res photos/products), "medium" (general use), "icon" (small icons/favicons)
- img_type: "photo" (real photographs), "clipart" (logos, icons, vector-style), "lineart" (simple drawings), "face" (portraits)

Guidelines:
- For LOGOS/BRANDS: Use img_type "clipart", include "official", "transparent", "vector" or "SVG" in query
- For PRODUCTS: Use img_type "photo", img_size "large", include "studio", "product shot", "white background"
- For ICONS: Use img_size "icon" or "medium", img_type "clipart"
- For PHOTOS/SCENES: Use img_type "photo", img_size "large"

Respond with ONLY a JSON object (no markdown, no extra text):
{"query": "your optimized search query", "img_size": "large|medium|icon|null", "img_type": "photo|clipart|lineart|face|null"}

Example for "BMW logo":
{"query": "BMW official logo transparent SVG vector", "img_size": "large", "img_type": "clipart"}

Example for "iPhone 15":
{"query": "iPhone 15 Pro product photo studio white background", "img_size": "large", "img_type": "photo"}
"#;

/// The full expansion instruction: the fixed template, the learning context
/// drawn from past feedback, then the user's input.
pub fn full_prompt(prompt: &str, learning_context: &str) -> (r: String)
    ensures
        r@ == PROMPT_TEMPLATE@ + learning_context@ + "User input: "@ + prompt@,
{
    let mut r = String::from_str(PROMPT_TEMPLATE);
    r.append(learning_context);
    r.append("User input: ");
    r.append(prompt);
    r
}

/// The endpoint of the text-generation service, with the credential.
pub fn gemini_url(api_key: &str) -> (r: String)
    ensures
        r@ == "https://generativelanguage.googleapis.com/v1beta/models/gemini-2.0-flash:generateContent?key="@
            + api_key@,
{
    let mut r = String::from_str(
        "https://generativelanguage.googleapis.com/v1beta/models/gemini-2.0-flash:generateContent?key=",
    );
    r.append(api_key);
    r
}

/// `s` with every leading copy of `p` removed.
pub open spec fn without_leading(s: Seq<char>, p: Seq<char>) -> Seq<char>
    decreases s.len(),
{
    if p.len() > 0 && p.len() <= s.len() && s.subrange(0, p.len() as int) == p {
        without_leading(s.subrange(p.len() as int, s.len() as int), p)
    } else {
        s
    }
}

/// `s` with every trailing copy of `p` removed.
pub open spec fn without_trailing(s: Seq<char>, p: Seq<char>) -> Seq<char>
    decreases s.len(),
{
    if p.len() > 0 && p.len() <= s.len() && s.subrange(s.len() - p.len(), s.len() as int) == p {
        without_trailing(s.subrange(0, s.len() - p.len()), p)
    } else {
        s
    }
}

/// Removes every leading copy of `p` from `s`.
pub fn strip_leading(s: &str, p: &str) -> (r: String)
    ensures
        r@ == without_leading(s@, p@),
{
    let n = s.unicode_len();
    let m = p.unicode_len();
    let mut start: usize = 0;
    if m == 0 {
        return String::from_str(s);
    }
    assert(s@.subrange(0, n as int) =~= s@);
    while m <= n - start && matches_at(s, p, start)
        invariant
            n == s@.len(),
            m == p@.len(),
            m > 0,
            start <= n,
            without_leading(s@.subrange(start as int, n as int), p@) == without_leading(s@, p@),
        decreases n - start,
    {
        let ghost t = s@.subrange(start as int, n as int);
        assert(t.subrange(0, m as int) =~= s@.subrange(start as int, start + m));
        assert(t.subrange(m as int, t.len() as int) =~= s@.subrange(start + m, n as int));
        start = start + m;
    }
    proof {
        let t = s@.subrange(start as int, n as int);
        if m <= t.len() {
            assert(t.subrange(0, m as int) =~= s@.subrange(start as int, start + m));
        }
    }
    String::from_str(s.substring_char(start, n))
}

/// Removes every trailing copy of `p` from `s`.
pub fn strip_trailing(s: &str, p: &str) -> (r: String)
    ensures
        r@ == without_trailing(s@, p@),
{
    let n = s.unicode_len();
    let m = p.unicode_len();
    let mut end: usize = n;
    if m == 0 {
        return String::from_str(s);
    }
    assert(s@.subrange(0, n as int) =~= s@);
    while m <= end && matches_at(s, p, end - m)
        invariant
            n == s@.len(),
            m == p@.len(),
            m > 0,
            end <= n,
            without_trailing(s@.subrange(0, end as int), p@) == without_trailing(s@, p@),
        decreases end,
    {
        let ghost t = s@.subrange(0, end as int);
        assert(t.subrange(t.len() - m, t.len() as int) =~= s@.subrange(end - m, end as int));
        assert(t.subrange(0, t.len() - m) =~= s@.subrange(0, end - m));
        end = end - m;
    }
    proof {
        let t = s@.subrange(0, end as int);
        if m <= t.len() {
            assert(t.subrange(t.len() - m, t.len() as int) =~= s@.subrange(end - m, end as int));
        }
    }
    String::from_str(s.substring_char(0, end))
}

/// The reply with surrounding white space and a Markdown code fence removed.
pub open spec fn unfenced(content: Seq<char>) -> Seq<char> {
    trimmed(
        without_trailing(
            without_leading(without_leading(trimmed(content), "```json"@), "```"@),
            "```"@,
        ),
    )
}

/// Takes the JSON object out of a reply that may wrap it in a code fence.
pub fn clean_response(content: &str) -> (r: String)
    ensures
        r@ == unfenced(content@),
{
    let t = trim_text(content);
    let a = strip_leading(t.as_str(), "```json");
    let b = strip_leading(a.as_str(), "```");
    let c = strip_trailing(b.as_str(), "```");
    trim_text(c.as_str())
}

/// The error for a reply that holds no directive.
pub open spec fn format_error_text(content: Seq<char>) -> Seq<char> {
    "Failed to parse AI response as JSON: "@ + content
}

/// The fields make a directive: `query` is a string, and each filter is
/// missing, `null` or a string.
pub open spec fn is_directive(query: JsonField, img_size: JsonField, img_type: JsonField) -> bool {
    query is Text && optional_text_of(img_size) is Some && optional_text_of(img_type) is Some
}

/// `d` is the directive the fields make.
pub open spec fn directive_matches(
    d: ExpandedQuery,
    query: JsonField,
    img_size: JsonField,
    img_type: JsonField,
) -> bool {
    &&& query matches JsonField::Text(q) && d.query == q
    &&& Some(d.img_size) == optional_text_of(img_size)
    &&& Some(d.img_type) == optional_text_of(img_type)
}

/// Makes a directive from the three members of a reply, if they hold one.
pub fn directive_from_fields(query: JsonField, img_size: JsonField, img_type: JsonField) -> (r:
    Option<ExpandedQuery>)
    ensures
        r is Some <==> is_directive(query, img_size, img_type),
        r matches Some(d) ==> directive_matches(d, query, img_size, img_type),
{
    let q = match query {
        JsonField::Text(q) => q,
        _ => return None,
    };
    let size = match optional_text(img_size) {
        Some(o) => o,
        None => return None,
    };
    let kind = match optional_text(img_type) {
        Some(o) => o,
        None => return None,
    };
    Some(ExpandedQuery { query: q, img_size: size, img_type: kind })
}

/// Reads a directive from the (unfenced) reply: a JSON object with a `query`
/// string and `img_size` and `img_type` each missing, `null` or a string;
/// anything else is the format error.
pub fn parse_expanded_query(content: &str) -> (r: Result<ExpandedQuery, String>)
    ensures
        r is Ok <==> is_directive(
            json_field_of(content@, "query"@),
            json_field_of(content@, "img_size"@),
            json_field_of(content@, "img_type"@),
        ),
        r matches Ok(d) ==> directive_matches(
            d,
            json_field_of(content@, "query"@),
            json_field_of(content@, "img_size"@),
            json_field_of(content@, "img_type"@),
        ),
        r matches Err(m) ==> m@ == format_error_text(content@),
{
    let query = json_field(content, "query");
    let img_size = json_field(content, "img_size");
    let img_type = json_field(content, "img_type");
    match directive_from_fields(query, img_size, img_type) {
        Some(d) => Ok(d),
        None => {
            let mut err = String::from_str("Failed to parse AI response as JSON: ");
            err.append(content);
            Err(err)
        },
    }
}

/// The text of a reply, given the texts of the parts of each candidate the
/// service returned: the first part of the first candidate.
pub fn reply_text(candidates: &Vec<Vec<String>>) -> (r: Result<String, String>)
    ensures
        candidates@.len() == 0 ==> (r matches Err(m) && m@ == "No response from Gemini"@),
        candidates@.len() > 0 && candidates@[0]@.len() == 0 ==> (r matches Err(m)
            && m@ == "No content in Gemini response"@),
        candidates@.len() > 0 && candidates@[0]@.len() > 0 ==> r == Ok::<String, String>(
            candidates@[0]@[0],
        ),
{
    if candidates.len() == 0 {
        return Err(String::from_str("No response from Gemini"));
    }
    if candidates[0].len() == 0 {
        return Err(String::from_str("No content in Gemini response"));
    }
    Ok(candidates[0][0].clone())
}

/// The directive a reply holds: its text, taken out of any code fence, read as
/// a directive.
pub fn directive_from_reply(candidates: &Vec<Vec<String>>) -> (r: Result<ExpandedQuery, String>)
    ensures
        candidates@.len() == 0 ==> (r matches Err(m) && m@ == "No response from Gemini"@),
        candidates@.len() > 0 && candidates@[0]@.len() == 0 ==> (r matches Err(m)
            && m@ == "No content in Gemini response"@),
        candidates@.len() > 0 && candidates@[0]@.len() > 0 ==> ({
            let c = unfenced(candidates@[0]@[0]@);
            &&& (r is Ok <==> is_directive(
                json_field_of(c, "query"@),
                json_field_of(c, "img_size"@),
                json_field_of(c, "img_type"@),
            ))
            &&& (r matches Ok(d) ==> directive_matches(
                d,
                json_field_of(c, "query"@),
                json_field_of(c, "img_size"@),
                json_field_of(c, "img_type"@),
            ))
            &&& (r matches Err(m) ==> m@ == format_error_text(c))
        }),
{
    let text = match reply_text(candidates) {
        Ok(t) => t,
        Err(e) => return Err(e),
    };
    let cleaned = clean_response(text.as_str());
    parse_expanded_query(cleaned.as_str())
}

} // verus!
