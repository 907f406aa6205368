//! Input and display rules of the command line: the request list, dimensions
//! and shortened titles.
use vstd::prelude::*;
use vstd::utf8::{encode_utf8, is_char_boundary};
use crate::text::{byte_len, decimal, decimal_string, lowercase_of, same_text, to_lower, trim_text, trimmed};

verus! {

/// The pieces of `s` between commas, in order (one piece when there is none).
pub open spec fn comma_pieces(s: Seq<char>) -> Seq<Seq<char>>
    decreases s.len(),
{
    if s.len() == 0 {
        seq![Seq::empty()]
    } else {
        let p = comma_pieces(s.drop_last());
        if s.last() == ',' {
            p.push(Seq::empty())
        } else {
            p.update(p.len() - 1, p.last().push(s.last()))
        }
    }
}

proof fn lemma_comma_pieces_nonempty(s: Seq<char>)
    ensures
        comma_pieces(s).len() >= 1,
    decreases s.len(),
{
    if s.len() > 0 {
        lemma_comma_pieces_nonempty(s.drop_last());
    }
}

/// A request is kept when it is at least two bytes long once trimmed.
pub open spec fn is_request(t: Seq<char>) -> bool {
    byte_len(t) >= 2
}

/// The trimmed pieces that count as requests, in order.
pub open spec fn requests_of(pieces: Seq<Seq<char>>) -> Seq<Seq<char>>
    decreases pieces.len(),
{
    if pieces.len() == 0 {
        Seq::empty()
    } else {
        let rest = requests_of(pieces.drop_last());
        let t = trimmed(pieces.last());
        if is_request(t) {
            rest.push(t)
        } else {
            rest
        }
    }
}

/// Splits the comma-separated pieces of `s`, in order.
pub fn split_commas(s: &str) -> (r: Vec<String>)
    ensures
        r@.len() == comma_pieces(s@).len(),
        forall|i: int| 0 <= i < r@.len() ==> #[trigger] r@[i]@ == comma_pieces(s@)[i],
{
    let n = s.unicode_len();
    let mut pieces: Vec<String> = Vec::new();
    let mut start: usize = 0;
    let mut i: usize = 0;
    proof {
        assert(s@.subrange(0, 0) =~= Seq::<char>::empty());
    }
    while i < n
        invariant
            n == s@.len(),
            start <= i <= n,
            pieces@.len() + 1 == comma_pieces(s@.subrange(0, i as int)).len(),
            forall|k: int| 0 <= k < pieces@.len() ==> #[trigger] pieces@[k]@ == comma_pieces(
                s@.subrange(0, i as int),
            )[k],
            comma_pieces(s@.subrange(0, i as int)).last() == s@.subrange(start as int, i as int),
        decreases n - i,
    {
        let c = s.get_char(i);
        proof {
            assert(s@.subrange(0, i + 1).drop_last() =~= s@.subrange(0, i as int));
            lemma_comma_pieces_nonempty(s@.subrange(0, i as int));
        }
        if c == ',' {
            pieces.push(String::from_str(s.substring_char(start, i)));
            start = i + 1;
            proof {
                assert(s@.subrange(start as int, i + 1) =~= Seq::<char>::empty());
            }
        } else {
            proof {
                assert(s@.subrange(start as int, i + 1) =~= s@.subrange(start as int, i as int).push(c));
            }
        }
        i += 1;
    }
    proof {
        assert(s@.subrange(0, n as int) =~= s@);
    }
    pieces.push(String::from_str(s.substring_char(start, n)));
    pieces
}

/// The requests in a comma-separated list: each piece trimmed, and pieces under
/// two bytes dropped.
pub fn parse_comma_separated(input: &str) -> (r: Vec<String>)
    ensures
        r@.len() == requests_of(comma_pieces(input@)).len(),
        forall|i: int| 0 <= i < r@.len() ==> #[trigger] r@[i]@ == requests_of(comma_pieces(input@))[i],
{
    let pieces = split_commas(input);
    let ghost ps = comma_pieces(input@);
    let mut out: Vec<String> = Vec::new();
    let mut i: usize = 0;
    proof {
        assert(ps.subrange(0, 0) =~= Seq::<Seq<char>>::empty());
    }
    while i < pieces.len()
        invariant
            pieces@.len() == ps.len(),
            forall|k: int| 0 <= k < pieces@.len() ==> #[trigger] pieces@[k]@ == ps[k],
            i <= pieces@.len(),
            out@.len() == requests_of(ps.subrange(0, i as int)).len(),
            forall|k: int| 0 <= k < out@.len() ==> #[trigger] out@[k]@ == requests_of(ps.subrange(0, i as int))[k],
        decreases pieces@.len() - i,
    {
        proof {
            assert(ps.subrange(0, i + 1).drop_last() =~= ps.subrange(0, i as int));
        }
        let t = trim_text(pieces[i].as_str());
        if t.as_str().len() >= 2 {
            out.push(t);
        }
        i += 1;
    }
    proof {
        assert(ps.subrange(0, pieces@.len() as int) =~= ps);
    }
    out
}

/// `WxH` when both dimensions are known, else `unknown`.
pub open spec fn dimensions_label(width: u32, height: u32) -> Seq<char> {
    if width > 0 && height > 0 {
        decimal(width as nat) + "x"@ + decimal(height as nat)
    } else {
        "unknown"@
    }
}

/// Shows the dimensions of a candidate.
pub fn format_dimensions(width: u32, height: u32) -> (r: String)
    ensures
        r@ == dimensions_label(width, height),
{
    if width > 0 && height > 0 {
        let mut r = decimal_string(width as u64);
        r.append("x");
        let h = decimal_string(height as u64);
        r.append(h.as_str());
        r
    } else {
        String::from_str("unknown")
    }
}

/// Shortens a title to at most `max_len` bytes, marking a cut with `...`.
/// A cut must fall on a character boundary.
pub fn truncate_title(title: &str, max_len: usize) -> (r: String)
    requires
        byte_len(title@) > max_len ==> max_len >= 3 && is_char_boundary(
            encode_utf8(title@),
            max_len - 3,
        ),
    ensures
        byte_len(title@) <= max_len ==> r@ == title@,
        byte_len(title@) > max_len ==> r@.len() >= 3 && r@.subrange(
            r@.len() - 3,
            r@.len() as int,
        ) == "..."@ && encode_utf8(r@.subrange(0, r@.len() - 3)) == encode_utf8(title@).subrange(
            0,
            max_len - 3,
        ),
{
    if title.len() <= max_len {
        String::from_str(title)
    } else {
        let (head, _) = title.split_at(max_len - 3);
        let mut r = String::from_str(head);
        r.append("...");
        proof {
            reveal_strlit("...");
            assert(r@.subrange(0, r@.len() - 3) =~= head@);
            assert(r@.subrange(r@.len() - 3, r@.len() as int) =~= "..."@);
        }
        r
    }
}

/// The filters of a directive as shown beside its query: ` [size:type]`,
/// ` [size]`, ` [type]`, or nothing.
pub open spec fn filter_label(img_size: Option<String>, img_type: Option<String>) -> Seq<char> {
    match (img_size, img_type) {
        (Some(s), Some(t)) => " ["@ + s@ + ":"@ + t@ + "]"@,
        (Some(s), None) => " ["@ + s@ + "]"@,
        (None, Some(t)) => " ["@ + t@ + "]"@,
        (None, None) => Seq::empty(),
    }
}

/// Shows the filters of a directive.
pub fn filter_info(img_size: &Option<String>, img_type: &Option<String>) -> (r: String)
    ensures
        r@ == filter_label(*img_size, *img_type),
{
    let mut r = String::new();
    match (img_size, img_type) {
        (Some(s), Some(t)) => {
            r.append(" [");
            r.append(s.as_str());
            r.append(":");
            r.append(t.as_str());
            r.append("]");
        },
        (Some(s), None) => {
            r.append(" [");
            r.append(s.as_str());
            r.append("]");
        },
        (None, Some(t)) => {
            r.append(" [");
            r.append(t.as_str());
            r.append("]");
        },
        (None, None) => {},
    }
    r
}

/// Whether an answer to a yes/no question, trimmed and lower-cased, accepts:
/// an empty answer, `y` or `yes`.
pub open spec fn is_acceptance(answer: Seq<char>) -> bool {
    let t = lowercase_of(trimmed(answer));
    t.len() == 0 || t == "y"@ || t == "yes"@
}

/// Reads an answer to a yes/no question whose default is yes.
pub fn accepts(answer: &str) -> (r: bool)
    ensures
        r == is_acceptance(answer@),
{
    let t = trim_text(answer);
    let l = to_lower(t.as_str());
    l.as_str().is_empty() || same_text(l.as_str(), "y") || same_text(l.as_str(), "yes")
}

} // verus!
