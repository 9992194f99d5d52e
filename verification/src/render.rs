//! Line renderer: turns one raw input line into the final output string.
//! A structured line is laid out as `<timestamp> <colored-level>
//! <component><subcomponent-suffix> <message>`, followed, outside concise
//! mode, by each extra field as ` <colored-key>:<literal>`; a line that is
//! not a JSON object passes through byte-for-byte.

use vstd::prelude::*;
use crate::palette::{
    LogColors, LogColorsView, bg_reset_seq, colored_key, colored_level, fg_reset_seq,
    spec_colored_key, spec_colored_level, spec_level_directive, spec_opt_colors,
};
use crate::record::{
    LogRecord, LogRecordView, ParsedLine, json_fields, parse, record_of,
};
use crate::strutil::{
    esc_count, esc_free, lemma_esc_count_concat, lemma_esc_free_concat, lemma_esc_free_count,
    lemma_esc_free_pad, lemma_esc_free_replace_cr, lemma_pad_min_len, pad_min, pad_min_exec,
    replace_cr, replace_cr_exec,
};

verus! {

/// What reformatting a timestamp yields: nothing when `ts` is not an RFC 3339
/// date-and-time, else its `YYYY-MM-DD HH:MM:SS.ffffff` form with exactly six
/// fractional digits, zero-padded or truncated from the input's precision.
pub uninterp spec fn rfc3339_reformat(ts: Seq<char>) -> Option<Seq<char>>;

/// Relies on chrono: `DateTime::parse_from_rfc3339` accepts exactly the RFC
/// 3339 date-and-time strings, and formatting the parsed instant with
/// `"%Y-%m-%d %H:%M:%S%.6f"` renders it, in the parsed offset, with exactly
/// six fractional digits, out of digits and the literal separators '-', ':',
/// ' ' and '.' alone — in particular free of the escape character.
#[verifier::external_body]
fn reformat_timestamp(ts: &str) -> (r: Option<String>)
    ensures
        r is Some <==> rfc3339_reformat(ts@) is Some,
        r is Some ==> r->0@ == rfc3339_reformat(ts@)->0,
        r is Some ==> esc_free(r->0@),
{
    match chrono::DateTime::parse_from_rfc3339(ts) {
        Ok(t) => Some(t.format("%Y-%m-%d %H:%M:%S%.6f").to_string()),
        Err(_) => None,
    }
}

/// Why rendering a structured line failed.
#[derive(Clone, Copy, Debug, PartialEq, Eq, Structural)]
pub enum RenderError {
    /// The line is a JSON object but its `ts` field is not an RFC 3339
    /// timestamp.
    BadTimestamp,
}

/// The subcomponent suffix: nothing for an empty subcomponent, else a literal
/// '-' followed by the subcomponent.
pub open spec fn subcomp_suffix(sub: Seq<char>) -> Seq<char> {
    if sub.len() == 0 {
        Seq::empty()
    } else {
        seq!['-'] + sub
    }
}

/// The rendered extra fields, in preserved order: for each, one space, the
/// colored key token, a colon and the value's compact JSON literal.
pub open spec fn spec_extra_suffix(
    extra: Seq<(Seq<char>, Seq<char>)>,
    p: Option<LogColorsView>,
) -> Seq<char>
    decreases extra.len(),
{
    if extra.len() == 0 {
        Seq::empty()
    } else {
        spec_extra_suffix(extra.drop_last(), p) + " "@ + spec_colored_key(p, extra.last().0)
            + ":"@ + extra.last().1
    }
}

/// The rendered line of a structured record, given its already-reformatted
/// timestamp: timestamp, colored level (minimum width 5), component (minimum
/// width 3) with the subcomponent suffix (minimum width 6), the message with
/// carriage returns blanked, and, outside concise mode, the extra fields.
pub open spec fn spec_record_line(
    ts_out: Seq<char>,
    rec: LogRecordView,
    p: Option<LogColorsView>,
    concise: bool,
) -> Seq<char> {
    ts_out + " "@ + spec_colored_level(p, rec.level) + " "@ + pad_min(rec.component, 3) + pad_min(
        subcomp_suffix(rec.subcomponent),
        6,
    ) + " "@ + replace_cr(rec.msg) + if concise {
        Seq::<char>::empty()
    } else {
        spec_extra_suffix(rec.extra, p)
    }
}

/// What rendering one raw line yields: the line itself when it is not a JSON
/// object; nothing when it is one whose `ts` field does not reformat; else
/// the laid-out record line.
pub open spec fn spec_render(
    line: Seq<char>,
    p: Option<LogColorsView>,
    concise: bool,
) -> Option<Seq<char>> {
    match json_fields(line) {
        None => Some(line),
        Some(fs) => {
            let rec = record_of(fs);
            match rfc3339_reformat(rec.ts) {
                None => None,
                Some(t) => Some(spec_record_line(t, rec, p, concise)),
            }
        },
    }
}

/// Renders a structured record whose timestamp has been reformatted already.
pub fn render_record(ts_out: String, rec: &LogRecord, colors: Option<&LogColors>, concise: bool) -> (r:
    String)
    ensures
        r@ == spec_record_line(ts_out@, rec@, spec_opt_colors(colors), concise),
{
    let ghost p = spec_opt_colors(colors);
    let mut out = ts_out;
    out.append(" ");
    let lvl = colored_level(colors, rec.level.as_str());
    out.append(lvl.as_str());
    out.append(" ");
    let comp = pad_min_exec(rec.component.as_str(), 3);
    out.append(comp.as_str());
    let mut suffix = String::new();
    if !rec.subcomponent.as_str().is_empty() {
        suffix.push('-');
        suffix.append(rec.subcomponent.as_str());
    }
    proof {
        assert(suffix@ =~= subcomp_suffix(rec.subcomponent@));
    }
    let padded_suffix = pad_min_exec(suffix.as_str(), 6);
    out.append(padded_suffix.as_str());
    out.append(" ");
    let msg = replace_cr_exec(rec.msg.as_str());
    out.append(msg.as_str());
    let ghost head = out@;
    if !concise {
        let ghost extras = rec@.extra;
        let mut i: usize = 0;
        proof {
            assert(out@ =~= head + spec_extra_suffix(extras.take(0), p));
        }
        while i < rec.extra.len()
            invariant
                i <= rec.extra@.len(),
                extras == rec@.extra,
                extras.len() == rec.extra@.len(),
                p == spec_opt_colors(colors),
                out@ == head + spec_extra_suffix(extras.take(i as int), p),
            decreases rec.extra@.len() - i,
        {
            let field = &rec.extra[i];
            out.append(" ");
            let key_tok = colored_key(colors, field.key.as_str());
            out.append(key_tok.as_str());
            out.append(":");
            out.append(field.literal.as_str());
            proof {
                assert(extras.take(i + 1).drop_last() =~= extras.take(i as int));
                assert(extras.take(i + 1).last() == extras[i as int]);
                assert(out@ =~= head + spec_extra_suffix(extras.take(i + 1), p));
            }
            i = i + 1;
        }
        proof {
            assert(extras.take(rec.extra@.len() as int) =~= extras);
        }
    }
    proof {
        assert(out@ =~= spec_record_line(ts_out@, rec@, p, concise));
    }
    out
}

/// Whether every field of the record, extra fields included, is free of the
/// escape character.
pub open spec fn esc_free_record(rec: LogRecordView) -> bool {
    &&& esc_free(rec.level)
    &&& esc_free(rec.component)
    &&& esc_free(rec.subcomponent)
    &&& esc_free(rec.msg)
    &&& forall|i: int|
        0 <= i < rec.extra.len() ==> esc_free(#[trigger] rec.extra[i].0) && esc_free(
            rec.extra[i].1,
        )
}

/// Unstructured passthrough: a line that is not a JSON object renders as
/// itself, exactly, whatever the palette and whatever the mode.
pub proof fn lemma_unstructured_round_trip(
    line: Seq<char>,
    p: Option<LogColorsView>,
    concise: bool,
)
    requires
        json_fields(line) is None,
    ensures
        spec_render(line, p, concise) == Some(line),
{
}

/// With no palette, a record whose reformatted timestamp and fields are free
/// of the escape character renders free of it: color-disabled output carries
/// no escape sequence that its input did not.
pub proof fn lemma_no_palette_no_escape(
    ts_out: Seq<char>,
    rec: LogRecordView,
    concise: bool,
)
    requires
        esc_free(ts_out),
        esc_free_record(rec),
    ensures
        esc_free(spec_record_line(ts_out, rec, None, concise)),
{
    reveal_strlit(" ");
    reveal_strlit(":");
    assert(esc_free(" "@));
    assert(esc_free(":"@));
    lemma_esc_free_pad(rec.level, 5);
    lemma_esc_free_pad(rec.component, 3);
    assert(esc_free(seq!['-']));
    lemma_esc_free_concat(seq!['-'], rec.subcomponent);
    assert(esc_free(subcomp_suffix(rec.subcomponent)));
    lemma_esc_free_pad(subcomp_suffix(rec.subcomponent), 6);
    lemma_esc_free_replace_cr(rec.msg);
    if !concise {
        lemma_extra_suffix_no_escape(rec.extra);
    }
    lemma_esc_free_concat(ts_out, " "@);
    lemma_esc_free_concat(ts_out + " "@, spec_colored_level(None, rec.level));
    lemma_esc_free_concat(ts_out + " "@ + spec_colored_level(None, rec.level), " "@);
    lemma_esc_free_concat(
        ts_out + " "@ + spec_colored_level(None, rec.level) + " "@,
        pad_min(rec.component, 3),
    );
    lemma_esc_free_concat(
        ts_out + " "@ + spec_colored_level(None, rec.level) + " "@ + pad_min(rec.component, 3),
        pad_min(subcomp_suffix(rec.subcomponent), 6),
    );
    lemma_esc_free_concat(
        ts_out + " "@ + spec_colored_level(None, rec.level) + " "@ + pad_min(rec.component, 3)
            + pad_min(subcomp_suffix(rec.subcomponent), 6),
        " "@,
    );
    lemma_esc_free_concat(
        ts_out + " "@ + spec_colored_level(None, rec.level) + " "@ + pad_min(rec.component, 3)
            + pad_min(subcomp_suffix(rec.subcomponent), 6) + " "@,
        replace_cr(rec.msg),
    );
    lemma_esc_free_concat(
        ts_out + " "@ + spec_colored_level(None, rec.level) + " "@ + pad_min(rec.component, 3)
            + pad_min(subcomp_suffix(rec.subcomponent), 6) + " "@ + replace_cr(rec.msg),
        if concise {
            Seq::<char>::empty()
        } else {
            spec_extra_suffix(rec.extra, None)
        },
    );
}

/// With no palette, the extra-field suffix of escape-free fields is
/// escape-free.
pub proof fn lemma_extra_suffix_no_escape(extra: Seq<(Seq<char>, Seq<char>)>)
    requires
        forall|i: int|
            0 <= i < extra.len() ==> esc_free(#[trigger] extra[i].0) && esc_free(extra[i].1),
    ensures
        esc_free(spec_extra_suffix(extra, None)),
    decreases extra.len(),
{
    reveal_strlit(" ");
    reveal_strlit(":");
    if extra.len() > 0 {
        lemma_extra_suffix_no_escape(extra.drop_last());
        lemma_esc_free_concat(spec_extra_suffix(extra.drop_last(), None), " "@);
        lemma_esc_free_concat(
            spec_extra_suffix(extra.drop_last(), None) + " "@,
            spec_colored_key(None, extra.last().0),
        );
        lemma_esc_free_concat(
            spec_extra_suffix(extra.drop_last(), None) + " "@ + spec_colored_key(
                None,
                extra.last().0,
            ),
            ":"@,
        );
        lemma_esc_free_concat(
            spec_extra_suffix(extra.drop_last(), None) + " "@ + spec_colored_key(
                None,
                extra.last().0,
            ) + ":"@,
            extra.last().1,
        );
    }
}

/// With a palette, the extra-field suffix of escape-free fields carries
/// exactly the escapes of each key's bracket: the key-label directive and
/// one foreground plus background reset per field, nothing else.
pub proof fn lemma_extra_suffix_escape_count(extra: Seq<(Seq<char>, Seq<char>)>, pv: LogColorsView)
    requires
        forall|i: int|
            0 <= i < extra.len() ==> esc_free(#[trigger] extra[i].0) && esc_free(extra[i].1),
    ensures
        esc_count(spec_extra_suffix(extra, Some(pv))) == extra.len() * (esc_count(pv.key)
            + esc_count(fg_reset_seq()) + esc_count(bg_reset_seq())),
    decreases extra.len(),
{
    let per = esc_count(pv.key) + esc_count(fg_reset_seq()) + esc_count(bg_reset_seq());
    if extra.len() > 0 {
        lemma_extra_suffix_escape_count(extra.drop_last(), pv);
        reveal_strlit(" ");
        reveal_strlit(":");
        assert(esc_free(" "@));
        assert(esc_free(":"@));
        lemma_esc_free_count(" "@);
        lemma_esc_free_count(":"@);
        lemma_esc_free_count(extra.last().0);
        lemma_esc_free_count(extra.last().1);
        let prev = spec_extra_suffix(extra.drop_last(), Some(pv));
        let k = extra.last().0;
        lemma_esc_count_concat(pv.key, k);
        lemma_esc_count_concat(pv.key + k, fg_reset_seq());
        lemma_esc_count_concat(pv.key + k + fg_reset_seq(), bg_reset_seq());
        lemma_esc_count_concat(prev, " "@);
        lemma_esc_count_concat(prev + " "@, spec_colored_key(Some(pv), k));
        lemma_esc_count_concat(prev + " "@ + spec_colored_key(Some(pv), k), ":"@);
        lemma_esc_count_concat(
            prev + " "@ + spec_colored_key(Some(pv), k) + ":"@,
            extra.last().1,
        );
        let n = extra.len() as int;
        let p = per as int;
        assert((n - 1) * p + p == n * p) by (nonlinear_arith);
    }
}

/// The complete bracketing statement for color-enabled output: with a
/// palette and escape-free inputs, the rendered line holds exactly the
/// escape characters of the level token's bracket (its category's directive
/// and one foreground plus background reset) and, outside concise mode, of
/// each extra-field key's bracket — none anywhere else.
/// `lemma_palette_brackets_level` and `lemma_palette_brackets_key` place
/// those brackets immediately around the tokens.
pub proof fn lemma_palette_escapes_only_brackets(
    ts_out: Seq<char>,
    rec: LogRecordView,
    pv: LogColorsView,
    concise: bool,
)
    requires
        esc_free(ts_out),
        esc_free_record(rec),
    ensures
        esc_count(spec_record_line(ts_out, rec, Some(pv), concise)) == esc_count(
            spec_level_directive(pv, rec.level),
        ) + esc_count(fg_reset_seq()) + esc_count(bg_reset_seq()) + if concise {
            0nat
        } else {
            rec.extra.len() * (esc_count(pv.key) + esc_count(fg_reset_seq()) + esc_count(
                bg_reset_seq(),
            ))
        },
{
    reveal_strlit(" ");
    assert(esc_free(" "@));
    lemma_esc_free_pad(rec.level, 5);
    lemma_esc_free_pad(rec.component, 3);
    assert(esc_free(seq!['-']));
    lemma_esc_free_concat(seq!['-'], rec.subcomponent);
    assert(esc_free(subcomp_suffix(rec.subcomponent)));
    lemma_esc_free_pad(subcomp_suffix(rec.subcomponent), 6);
    lemma_esc_free_replace_cr(rec.msg);
    lemma_esc_free_count(ts_out);
    lemma_esc_free_count(" "@);
    lemma_esc_free_count(pad_min(rec.level, 5));
    lemma_esc_free_count(pad_min(rec.component, 3));
    lemma_esc_free_count(pad_min(subcomp_suffix(rec.subcomponent), 6));
    lemma_esc_free_count(replace_cr(rec.msg));
    let dir = spec_level_directive(pv, rec.level);
    lemma_esc_count_concat(dir, pad_min(rec.level, 5));
    lemma_esc_count_concat(dir + pad_min(rec.level, 5), fg_reset_seq());
    lemma_esc_count_concat(dir + pad_min(rec.level, 5) + fg_reset_seq(), bg_reset_seq());
    let lvl_tok = spec_colored_level(Some(pv), rec.level);
    lemma_esc_count_concat(ts_out, " "@);
    lemma_esc_count_concat(ts_out + " "@, lvl_tok);
    lemma_esc_count_concat(ts_out + " "@ + lvl_tok, " "@);
    lemma_esc_count_concat(ts_out + " "@ + lvl_tok + " "@, pad_min(rec.component, 3));
    lemma_esc_count_concat(
        ts_out + " "@ + lvl_tok + " "@ + pad_min(rec.component, 3),
        pad_min(subcomp_suffix(rec.subcomponent), 6),
    );
    lemma_esc_count_concat(
        ts_out + " "@ + lvl_tok + " "@ + pad_min(rec.component, 3) + pad_min(
            subcomp_suffix(rec.subcomponent),
            6,
        ),
        " "@,
    );
    lemma_esc_count_concat(
        ts_out + " "@ + lvl_tok + " "@ + pad_min(rec.component, 3) + pad_min(
            subcomp_suffix(rec.subcomponent),
            6,
        ) + " "@,
        replace_cr(rec.msg),
    );
    let head = ts_out + " "@ + lvl_tok + " "@ + pad_min(rec.component, 3) + pad_min(
        subcomp_suffix(rec.subcomponent),
        6,
    ) + " "@ + replace_cr(rec.msg);
    if concise {
        lemma_esc_count_concat(head, Seq::<char>::empty());
    } else {
        lemma_extra_suffix_escape_count(rec.extra, pv);
        lemma_esc_count_concat(head, spec_extra_suffix(rec.extra, Some(pv)));
    }
}

/// With a palette, the level token is exactly its category's directive, the
/// plain padded level, and a reset of both foreground and background state:
/// the escape sequences bracket the level token and nothing else.
pub proof fn lemma_palette_brackets_level(pv: LogColorsView, level: Seq<char>)
    ensures
        spec_colored_level(Some(pv), level) == spec_level_directive(pv, level)
            + spec_colored_level(None, level) + fg_reset_seq() + bg_reset_seq(),
{
}

/// With a palette, each extra-field key token is exactly the key-label
/// directive, the plain padded key, and a reset of both foreground and
/// background state.
pub proof fn lemma_palette_brackets_key(pv: LogColorsView, key: Seq<char>)
    ensures
        spec_colored_key(Some(pv), key) == pv.key + spec_colored_key(None, key) + fg_reset_seq()
            + bg_reset_seq(),
{
}

/// The extra-field suffix a line renders outside concise mode: empty for an
/// unstructured line.
pub open spec fn spec_render_suffix(line: Seq<char>, p: Option<LogColorsView>) -> Seq<char> {
    match json_fields(line) {
        None => Seq::empty(),
        Some(fs) => spec_extra_suffix(record_of(fs).extra, p),
    }
}

/// Concise output is a prefix of full output for the same line and palette:
/// both succeed or fail together, the full rendering is the concise rendering
/// followed by the extra-field suffix, and the concise rendering is exactly
/// the full one cut at its own length.
pub proof fn lemma_concise_prefix(line: Seq<char>, p: Option<LogColorsView>)
    ensures
        spec_render(line, p, true) is Some <==> spec_render(line, p, false) is Some,
        spec_render(line, p, false) is Some ==> spec_render(line, p, false)->0 == spec_render(
            line,
            p,
            true,
        )->0 + spec_render_suffix(line, p),
        spec_render(line, p, false) is Some ==> spec_render(line, p, true)->0 == spec_render(
            line,
            p,
            false,
        )->0.take(spec_render(line, p, true)->0.len() as int),
{
    match json_fields(line) {
        None => {
            assert(line + Seq::<char>::empty() =~= line);
            assert(line.take(line.len() as int) =~= line);
        },
        Some(fs) => {
            let rec = record_of(fs);
            match rfc3339_reformat(rec.ts) {
                None => {},
                Some(t) => {
                    let concise_line = spec_record_line(t, rec, p, true);
                    let full_line = spec_record_line(t, rec, p, false);
                    assert(full_line =~= concise_line + spec_extra_suffix(rec.extra, p));
                    assert(concise_line =~= full_line.take(concise_line.len() as int));
                },
            }
        },
    }
}

/// The component region of the line: an empty subcomponent contributes no
/// suffix token at all, a non-empty one contributes '-' and the subcomponent
/// directly after the component, and the combined region is laid out to a
/// minimum width of 9 (3 for the component, 6 for the suffix).
pub proof fn lemma_subcomponent_region(comp: Seq<char>, sub: Seq<char>)
    ensures
        sub.len() == 0 ==> subcomp_suffix(sub) == Seq::<char>::empty(),
        sub.len() > 0 ==> subcomp_suffix(sub) == seq!['-'] + sub,
        (pad_min(comp, 3) + pad_min(subcomp_suffix(sub), 6)).len() >= 9,
{
    lemma_pad_min_len(comp, 3);
    lemma_pad_min_len(subcomp_suffix(sub), 6);
}

/// Long-lived structure for pretty-printing structured logs: holds the
/// palette, or none of one, and renders each line against it.
pub struct LogRenderer {
    pub colors: Option<LogColors>,
}

impl Default for LogRenderer {
    /// A renderer with the stock palette.
    fn default() -> (r: Self)
        ensures
            r.colors_view() == Some(crate::palette::default_colors()),
    {
        LogRenderer { colors: Some(LogColors::default()) }
    }
}

impl LogRenderer {
    /// The palette this renderer applies, as a spec value.
    pub open spec fn colors_view(&self) -> Option<LogColorsView> {
        match self.colors {
            None => None,
            Some(c) => Some(c@),
        }
    }

    /// Create a new LogRenderer with the given palette, or none for
    /// color-free output.
    pub fn new(colors: Option<LogColors>) -> (r: LogRenderer)
        ensures
            r.colors == colors,
    {
        LogRenderer { colors }
    }

    /// Format the supplied JSON-format log line to make it human-friendly.
    /// A line that is not a JSON object comes back unchanged; a JSON object
    /// whose `ts` field is not an RFC 3339 timestamp is a rendering error
    /// for that single line.
    pub fn format_log(&self, log: &str, concise: bool) -> (r: Result<String, RenderError>)
        ensures
            match spec_render(log@, self.colors_view(), concise) {
                Some(s) => r matches Ok(o) && o@ == s,
                None => r == Result::<String, RenderError>::Err(RenderError::BadTimestamp),
            },
            json_fields(log@) is None ==> (r matches Ok(o) && o@ == log@),
            self.colors_view() is None && r is Ok && (json_fields(log@) matches Some(fs)
                && esc_free_record(record_of(fs))) ==> esc_free(r->Ok_0@),
    {
        match parse(log) {
            ParsedLine::Unstructured(s) => Ok(s),
            ParsedLine::Structured(rec) => match reformat_timestamp(rec.ts.as_str()) {
                None => Err(RenderError::BadTimestamp),
                Some(ts_out) => {
                    proof {
                        if self.colors_view() is None && esc_free_record(rec@) {
                            lemma_no_palette_no_escape(ts_out@, rec@, concise);
                        }
                    }
                    Ok(render_record(ts_out, &rec, self.colors.as_ref(), concise))
                },
            },
        }
    }
}

} // verus!
