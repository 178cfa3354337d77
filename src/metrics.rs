//! Text helpers for exporting readings as metrics: line-protocol escaping and
//! the labels derived from sensor names.

use vstd::prelude::*;
use vstd::string::{StrSliceExecFns, StringExecFns, StringSliceAdditionalSpecFns};
use crate::text::{contains_text, has_infix};
use crate::platform::same_text;

verus! {

/// A character escaped for the line protocol: commas, spaces and equals
/// signs get a backslash in front.
pub open spec fn escape_char(c: char) -> Seq<char> {
    if c == ',' || c == ' ' || c == '=' {
        seq!['\\', c]
    } else {
        seq![c]
    }
}

/// A text escaped for the line protocol.
pub open spec fn escaped(s: Seq<char>) -> Seq<char>
    decreases s.len(),
{
    if s.len() == 0 {
        Seq::empty()
    } else {
        escaped(s.drop_last()) + escape_char(s.last())
    }
}

/// Escapes commas, spaces and equals signs with a backslash.
fn escape_line_protocol(s: &str) -> (r: String)
    ensures
        r@ == escaped(s@),
{
    let n = s.unicode_len();
    let mut out = String::from_str("");
    proof {
        reveal_strlit("");
    }
    let mut i: usize = 0;
    while i < n
        invariant
            0 <= i <= n,
            n == s@.len(),
            out@ == escaped(s@.take(i as int)),
        decreases n - i,
    {
        let c = s.get_char(i);
        assert(s@.take(i + 1).drop_last() =~= s@.take(i as int));
        if c == ',' {
            out.append("\\,");
            proof {
                reveal_strlit("\\,");
            }
        } else if c == ' ' {
            out.append("\\ ");
            proof {
                reveal_strlit("\\ ");
            }
        } else if c == '=' {
            out.append("\\=");
            proof {
                reveal_strlit("\\=");
            }
        } else {
            out.append(s.substring_char(i, i + 1));
        }
        i += 1;
        assert(out@ =~= escaped(s@.take(i as int)));
    }
    assert(s@.take(n as int) =~= s@);
    out
}

/// Escapes a tag key for the line protocol.
pub fn escape_tag_key(s: &str) -> (r: String)
    ensures
        r@ == escaped(s@),
{
    escape_line_protocol(s)
}

/// Escapes a tag value for the line protocol.
pub fn escape_tag_value(s: &str) -> (r: String)
    ensures
        r@ == escaped(s@),
{
    escape_line_protocol(s)
}

/// Escapes a field key for the line protocol.
pub fn escape_field_key(s: &str) -> (r: String)
    ensures
        r@ == escaped(s@),
{
    escape_line_protocol(s)
}

/// Whether a character is an ASCII digit.
pub open spec fn is_digit(c: char) -> bool {
    '0' <= c <= '9'
}

/// The core label of a processor sensor name: `efficiency` for an
/// efficiency core, `performance_<n>` for a name ending in the digit `n`,
/// `performance` otherwise, and `unknown` for an empty name.
pub open spec fn core_name_of(name: &str) -> Seq<char> {
    if has_infix(name.spec_bytes(), "Efficiency".spec_bytes()) {
        "efficiency"@
    } else if name@.len() == 0 {
        "unknown"@
    } else if is_digit(name@.last()) {
        "performance_"@ + seq![name@.last()]
    } else {
        "performance"@
    }
}

/// The core label of a processor sensor name.
pub fn extract_core_name(name: &str) -> (r: String)
    ensures
        r@ == core_name_of(name),
{
    if contains_text(name, "Efficiency") {
        return String::from_str("efficiency");
    }
    let n = name.unicode_len();
    if n == 0 {
        return String::from_str("unknown");
    }
    let c = name.get_char(n - 1);
    if '0' <= c && c <= '9' {
        let mut out = String::from_str("performance_");
        let digit = name.substring_char(n - 1, n);
        assert(digit@ =~= seq![name@.last()]);
        out.append(digit);
        out
    } else {
        String::from_str("performance")
    }
}

/// The core type of a processor sensor name: `efficiency`, `performance`,
/// or `unknown` where the name says neither.
pub open spec fn core_type_of(name: &str) -> Seq<char> {
    if has_infix(name.spec_bytes(), "Efficiency".spec_bytes()) {
        "efficiency"@
    } else if has_infix(name.spec_bytes(), "Performance".spec_bytes()) {
        "performance"@
    } else {
        "unknown"@
    }
}

/// The core type of a processor sensor name.
pub fn extract_core_type(name: &str) -> (r: String)
    ensures
        r@ == core_type_of(name),
{
    if contains_text(name, "Efficiency") {
        String::from_str("efficiency")
    } else if contains_text(name, "Performance") {
        String::from_str("performance")
    } else {
        String::from_str("unknown")
    }
}

/// The graphics unit number of a sensor name: its last character where that
/// is a digit, `0` otherwise.
pub open spec fn gpu_number_of(name: Seq<char>) -> Seq<char> {
    if name.len() > 0 && is_digit(name.last()) {
        seq![name.last()]
    } else {
        "0"@
    }
}

/// The graphics unit number of a sensor name.
pub fn extract_gpu_number(name: &str) -> (r: String)
    ensures
        r@ == gpu_number_of(name@),
{
    let n = name.unicode_len();
    if n > 0 {
        let c = name.get_char(n - 1);
        if '0' <= c && c <= '9' {
            let digit = name.substring_char(n - 1, n);
            assert(digit@ =~= seq![name@.last()]);
            return String::from_str(digit);
        }
    }
    String::from_str("0")
}

/// The pieces of a text between separators, as `str::split` gives them: a
/// text without separators is one piece, and each separator starts a new one.
pub open spec fn pieces(s: Seq<char>, sep: char) -> Seq<Seq<char>>
    decreases s.len(),
{
    if s.len() == 0 {
        seq![Seq::empty()]
    } else {
        let before = pieces(s.drop_last(), sep);
        if s.last() == sep {
            before.push(Seq::empty())
        } else {
            before.update(before.len() - 1, before.last().push(s.last()))
        }
    }
}

/// A text always splits into at least one piece.
proof fn lemma_pieces_nonempty(s: Seq<char>, sep: char)
    ensures
        pieces(s, sep).len() >= 1,
    decreases s.len(),
{
    if s.len() > 0 {
        lemma_pieces_nonempty(s.drop_last(), sep);
    }
}

/// Splits a text at every separator.
pub fn split_on(s: &str, sep: char) -> (r: Vec<String>)
    ensures
        r@.map_values(|p: String| p@) == pieces(s@, sep),
{
    let n = s.unicode_len();
    let mut out: Vec<String> = Vec::new();
    let mut current = String::from_str("");
    proof {
        reveal_strlit("");
    }
    assert(current@ =~= Seq::<char>::empty());
    assert(s@.take(0) =~= Seq::<char>::empty());
    assert(out@.map_values(|p: String| p@).push(current@) =~= pieces(s@.take(0), sep));
    let mut i: usize = 0;
    while i < n
        invariant
            0 <= i <= n,
            n == s@.len(),
            out@.map_values(|p: String| p@).push(current@) == pieces(s@.take(i as int), sep),
        decreases n - i,
    {
        let c = s.get_char(i);
        let ghost prev = out@.map_values(|p: String| p@).push(current@);
        assert(s@.take(i + 1).drop_last() =~= s@.take(i as int));
        assert(s@.take(i + 1).last() == c);
        proof {
            lemma_pieces_nonempty(s@.take(i as int), sep);
        }
        if c == sep {
            let done = current;
            out.push(done);
            current = String::from_str("");
            proof {
                reveal_strlit("");
            }
            assert(current@ =~= Seq::<char>::empty());
            assert(out@.map_values(|p: String| p@).push(current@) =~= prev.push(Seq::empty()));
        } else {
            let ghost old_current = current@;
            let piece = s.substring_char(i, i + 1);
            assert(piece@ =~= seq![c]);
            current.append(piece);
            assert(current@ =~= old_current.push(c));
            assert(out@.map_values(|p: String| p@).push(current@) =~= prev.update(prev.len() - 1, prev.last().push(c)));
        }
        i += 1;
    }
    assert(s@.take(n as int) =~= s@);
    out.push(current);
    assert(out@.map_values(|p: String| p@) =~= pieces(s@, sep));
    out
}

/// Whether no key appears twice among tags.
pub open spec fn keys_unique(v: Seq<(Seq<char>, Seq<char>)>) -> bool {
    forall|i: int, j: int| 0 <= i < j < v.len() ==> #[trigger] v[i].0 != #[trigger] v[j].0
}

/// Sets a tag: a key already present gets the new value in its place, a new
/// key is added at the end.
pub open spec fn insert_tag(v: Seq<(Seq<char>, Seq<char>)>, k: Seq<char>, val: Seq<char>) -> Seq<(Seq<char>, Seq<char>)> {
    if exists|i: int| 0 <= i < v.len() && #[trigger] v[i].0 == k {
        v.update(choose|i: int| 0 <= i < v.len() && #[trigger] v[i].0 == k, (k, val))
    } else {
        v.push((k, val))
    }
}

/// Setting a tag keeps the keys unique.
pub proof fn lemma_insert_tag_unique(v: Seq<(Seq<char>, Seq<char>)>, k: Seq<char>, val: Seq<char>)
    requires
        keys_unique(v),
    ensures
        keys_unique(insert_tag(v, k, val)),
{
    let w = insert_tag(v, k, val);
    if exists|i: int| 0 <= i < v.len() && #[trigger] v[i].0 == k {
        let c = choose|i: int| 0 <= i < v.len() && #[trigger] v[i].0 == k;
        assert forall|i: int, j: int| 0 <= i < j < w.len() implies #[trigger] w[i].0 != #[trigger] w[j].0 by {
            if i != c && j != c {
                assert(w[i] == v[i] && w[j] == v[j]);
            } else if i == c {
                assert(v[j].0 != v[c].0);
            } else {
                assert(v[i].0 != v[c].0);
            }
        }
    } else {
        assert forall|i: int, j: int| 0 <= i < j < w.len() implies #[trigger] w[i].0 != #[trigger] w[j].0 by {
            if j == v.len() {
                assert(w[i] == v[i]);
            } else {
                assert(w[i] == v[i] && w[j] == v[j]);
            }
        }
    }
}

/// Finds the tag with the given key.
fn find_tag(v: &Vec<(String, String)>, k: &str) -> (r: Option<usize>)
    ensures
        r is None ==> forall|m: int| 0 <= m < v@.len() ==> #[trigger] tag_views(v@)[m].0 != k@,
        r matches Some(j) ==> j < v@.len() && tag_views(v@)[j as int].0 == k@,
{
    let mut j: usize = 0;
    while j < v.len()
        invariant
            0 <= j <= v@.len(),
            forall|m: int| 0 <= m < j ==> #[trigger] tag_views(v@)[m].0 != k@,
        decreases v@.len() - j,
    {
        assert(tag_views(v@)[j as int] == (v@[j as int].0@, v@[j as int].1@));
        if same_text(v[j].0.as_str(), k) {
            return Some(j);
        }
        j += 1;
    }
    None
}

/// The tags that comma-separated `key=value` pairs give, set one after
/// another, so that a later pair with the same key replaces the value of an
/// earlier one; the first pair that is not exactly one key and one value is
/// the error.
pub open spec fn tag_pairs(pairs: Seq<Seq<char>>) -> core::result::Result<Seq<(Seq<char>, Seq<char>)>, Seq<char>>
    decreases pairs.len(),
{
    if pairs.len() == 0 {
        Ok(Seq::empty())
    } else {
        match tag_pairs(pairs.drop_last()) {
            Err(e) => Err(e),
            Ok(v) => {
                let parts = pieces(pairs.last(), '=');
                if parts.len() == 2 {
                    Ok(insert_tag(v, parts[0], parts[1]))
                } else {
                    Err(pairs.last())
                }
            },
        }
    }
}

/// Once a prefix of the pairs holds a malformed one, the whole list does.
proof fn lemma_tag_pairs_err(s: Seq<Seq<char>>, k: int)
    requires
        0 <= k <= s.len(),
        tag_pairs(s.take(k)) is Err,
    ensures
        tag_pairs(s) == tag_pairs(s.take(k)),
    decreases s.len(),
{
    if k == s.len() {
        assert(s.take(k) =~= s);
    } else {
        assert(s.drop_last().take(k) =~= s.take(k));
        lemma_tag_pairs_err(s.drop_last(), k);
    }
}

/// The views of a list of tags.
pub open spec fn tag_views(v: Seq<(String, String)>) -> Seq<(Seq<char>, Seq<char>)> {
    v.map_values(|p: (String, String)| (p.0@, p.1@))
}

/// Parses tags written as `key=value` pairs separated by commas. No text
/// gives no tags; a malformed pair is returned as the error.
pub fn parse_tags(tags: Option<String>) -> (r: core::result::Result<Option<Vec<(String, String)>>, String>)
    ensures
        tags is None ==> r matches Ok(None),
        tags matches Some(t) ==> match tag_pairs(pieces(t@, ',')) {
            Ok(v) => r is Ok && r->Ok_0 is Some && tag_views(r->Ok_0->Some_0@) == v
                && keys_unique(v),
            Err(e) => r is Err && r->Err_0@ == e,
        },
{
    match tags {
        None => Ok(None),
        Some(text) => match parse_tag_text(&text) {
            Ok(v) => Ok(Some(v)),
            Err(e) => Err(e),
        },
    }
}

/// Parses tags written as `key=value` pairs separated by commas.
fn parse_tag_text(text: &String) -> (r: core::result::Result<Vec<(String, String)>, String>)
    ensures
        match tag_pairs(pieces(text@, ',')) {
            Ok(v) => r is Ok && tag_views(r->Ok_0@) == v && keys_unique(v),
            Err(e) => r is Err && r->Err_0@ == e,
        },
{
    let joined = text.as_str();
    assert(joined@ == text@);
    let pairs = split_on(joined, ',');
    let ghost pv = pairs@.map_values(|p: String| p@);
    let mut out: Vec<(String, String)> = Vec::new();
    assert(pv.take(0) =~= Seq::<Seq<char>>::empty());
    assert(tag_views(out@) =~= Seq::<(Seq<char>, Seq<char>)>::empty());
    let mut i: usize = 0;
    while i < pairs.len()
        invariant
            0 <= i <= pairs@.len(),
            pv == pairs@.map_values(|p: String| p@),
            pv == pieces(text@, ','),
            tag_pairs(pv.take(i as int)) == Ok::<Seq<(Seq<char>, Seq<char>)>, Seq<char>>(tag_views(out@)),
            keys_unique(tag_views(out@)),
        decreases pairs@.len() - i,
    {
        assert(pv.take(i + 1).drop_last() =~= pv.take(i as int));
        assert(pv.take(i + 1).last() == pairs@[i as int]@);
        let parts = split_on(pairs[i].as_str(), '=');
        if parts.len() != 2 {
            assert(pieces(pairs@[i as int]@, '=').len() != 2);
            assert(tag_pairs(pv.take(i + 1)) == Err::<Seq<(Seq<char>, Seq<char>)>, Seq<char>>(pv[i as int]));
            proof {
                lemma_tag_pairs_err(pv, i + 1);
            }
            let bad = pairs[i].clone();
            assert(pv == pieces(text@, ','));
            assert(bad@ == pv[i as int]);
            return Err(bad);
        }
        let key = parts[0].clone();
        let value = parts[1].clone();
        let ghost before = tag_views(out@);
        let ghost kv = parts@[0]@;
        let ghost vv = parts@[1]@;
        proof {
            lemma_insert_tag_unique(before, kv, vv);
        }
        match find_tag(&out, key.as_str()) {
            Some(j) => {
                proof {
                    let c = choose|m: int| 0 <= m < before.len() && #[trigger] before[m].0 == kv;
                    assert(0 <= c < before.len() && before[c].0 == kv);
                    if c != j as int {
                        if c < j as int {
                            assert(before[c].0 != before[j as int].0);
                        } else {
                            assert(before[j as int].0 != before[c].0);
                        }
                    }
                }
                out.set(j, (key, value));
                assert(tag_views(out@) =~= before.update(j as int, (kv, vv)));
            },
            None => {
                out.push((key, value));
                assert(tag_views(out@) =~= before.push((kv, vv)));
            },
        }
        i += 1;
    }
    assert(pv.take(i as int) =~= pv);
    Ok(out)
}

/// A measurement name with its prefix and an underscore in front, where there
/// is a prefix.
pub open spec fn measurement_name(prefix: Option<Seq<char>>, measurement: Seq<char>) -> Seq<char> {
    match prefix {
        Some(p) => p + "_"@ + measurement,
        None => measurement,
    }
}

/// The tags of a line: each as `,key=value`, escaped, in order.
pub open spec fn tags_text(tags: Seq<(Seq<char>, Seq<char>)>) -> Seq<char>
    decreases tags.len(),
{
    if tags.len() == 0 {
        Seq::empty()
    } else {
        tags_text(tags.drop_last()) + ","@ + escaped(tags.last().0) + "="@ + escaped(tags.last().1)
    }
}

/// A line of the line protocol: measurement and tags, the field and its
/// value, and the timestamp.
pub open spec fn line_of(
    prefix: Option<Seq<char>>,
    measurement: Seq<char>,
    tags: Seq<(Seq<char>, Seq<char>)>,
    field: Seq<char>,
    value: Seq<char>,
    timestamp: Seq<char>,
) -> Seq<char> {
    measurement_name(prefix, measurement) + tags_text(tags) + " "@ + escaped(field) + "="@ + value + " "@
        + timestamp
}

/// Formats one metric as a line of the line protocol. The value and the
/// timestamp come formatted; tag keys, tag values and the field are escaped.
pub fn format_line(
    prefix: &Option<String>,
    measurement: &str,
    tags: &Vec<(String, String)>,
    field: &str,
    value: &str,
    timestamp: &str,
) -> (r: String)
    ensures
        r@ == line_of(
            match prefix {
                Some(p) => Some(p@),
                None => None,
            },
            measurement@,
            tag_views(tags@),
            field@,
            value@,
            timestamp@,
        ),
{
    proof {
        reveal_strlit("_");
        reveal_strlit(",");
        reveal_strlit("=");
        reveal_strlit(" ");
    }
    let mut line = match prefix {
        Some(p) => {
            let mut l = p.clone();
            l.append("_");
            l.append(measurement);
            l
        },
        None => String::from_str(measurement),
    };
    let ghost head = line@;
    let mut i: usize = 0;
    while i < tags.len()
        invariant
            0 <= i <= tags@.len(),
            line@ == head + tags_text(tag_views(tags@).take(i as int)),
        decreases tags@.len() - i,
    {
        let ghost before = line@;
        assert(tag_views(tags@).take(i + 1).drop_last() =~= tag_views(tags@).take(i as int));
        let k = escape_tag_key(tags[i].0.as_str());
        let v = escape_tag_value(tags[i].1.as_str());
        line.append(",");
        line.append(k.as_str());
        line.append("=");
        line.append(v.as_str());
        i += 1;
        assert(line@ =~= head + tags_text(tag_views(tags@).take(i as int)));
    }
    assert(tag_views(tags@).take(i as int) =~= tag_views(tags@));
    let f = escape_field_key(field);
    line.append(" ");
    line.append(f.as_str());
    line.append("=");
    line.append(value);
    line.append(" ");
    line.append(timestamp);
    line
}

} // verus!
