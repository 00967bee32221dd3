//! The metadata template language: plain text with `{{field}}` and
//! `{{field:start}}` / `{{field:end}}` placeholders, and `\n` escapes for
//! line breaks.
use vstd::prelude::*;

use crate::model::media::TrackMetadata;
use crate::model::metadata::{MetadataConfig, TruncateMode};
use crate::text::{
    chars_equal_str, chars_of, find_char, find_pair, find_pair_in, first_index_of, lemma_find_pair, message,
    push_chars, push_str, sub_chars, trim, trim_bounds,
};

verus! {

pub struct SectionRender {
    pub text: String,
    pub truncate: TruncateMode,
}

pub struct RenderedMetadata {
    pub top: Option<SectionRender>,
    pub left: Option<SectionRender>,
}

#[derive(Clone, Copy, Debug, PartialEq, Eq, Structural)]
pub enum TemplateField {
    Artist,
    Title,
    Album,
    TrackNumber,
    Length,
    Position,
}

pub enum TemplatePiece {
    Text(String),
    Field { name: TemplateField, truncate: Option<TruncateMode> },
}

/// A template piece with its text as a sequence of characters.
pub enum PieceView {
    Text(Seq<char>),
    Field(TemplateField, Option<TruncateMode>),
}

impl View for TemplatePiece {
    type V = PieceView;

    open spec fn view(&self) -> PieceView {
        match self {
            TemplatePiece::Text(s) => PieceView::Text(s@),
            TemplatePiece::Field { name, truncate } => PieceView::Field(*name, *truncate),
        }
    }
}

pub open spec fn pieces_view(v: Seq<TemplatePiece>) -> Seq<PieceView> {
    v.map_values(|p: TemplatePiece| p@)
}

// ---------------------------------------------------------------------------
// Specification
// ---------------------------------------------------------------------------

/// `template.replace("\\n", "\n")`: each backslash followed by `n` becomes a
/// line break.
pub open spec fn unescape_newlines(s: Seq<char>) -> Seq<char>
    decreases s.len(),
{
    if s.len() == 0 {
        s
    } else if s.len() >= 2 && s[0] == '\\' && s[1] == 'n' {
        seq!['\n'] + unescape_newlines(s.skip(2))
    } else {
        seq![s[0]] + unescape_newlines(s.drop_first())
    }
}

pub open spec fn field_named(name: Seq<char>) -> Option<TemplateField> {
    if name == "artist"@ {
        Some(TemplateField::Artist)
    } else if name == "title"@ {
        Some(TemplateField::Title)
    } else if name == "album"@ {
        Some(TemplateField::Album)
    } else if name == "trackNumber"@ {
        Some(TemplateField::TrackNumber)
    } else if name == "length"@ {
        Some(TemplateField::Length)
    } else if name == "position"@ || name == "timestamp"@ {
        Some(TemplateField::Position)
    } else {
        None
    }
}

pub open spec fn field_text(f: TemplateField, m: TrackMetadata) -> Seq<char> {
    match f {
        TemplateField::Artist => m.artist@,
        TemplateField::Title => m.title@,
        TemplateField::Album => m.album@,
        TemplateField::TrackNumber => m.track_number@,
        TemplateField::Length => m.length@,
        TemplateField::Position => m.position@,
    }
}

/// The field name and optional modifier of a trimmed placeholder token.
pub open spec fn split_token(token: Seq<char>) -> (Seq<char>, Option<Seq<char>>) {
    match first_index_of(token, ':') {
        Some(i) => (trim(token.take(i)), Some(trim(token.skip(i + 1)))),
        None => (token, None),
    }
}

/// What the placeholder with the (trimmed) token `token` compiles to.
pub open spec fn placeholder_piece(token: Seq<char>) -> Result<PieceView, Seq<char>> {
    let (name, modifier) = split_token(token);
    match field_named(name) {
        None => Err("unknown template field '{{"@ + name + "}}'"@),
        Some(field) => match modifier {
            None => Ok(PieceView::Field(field, None)),
            Some(m) => if m == "start"@ {
                Ok(PieceView::Field(field, Some(TruncateMode::Start)))
            } else if m == "end"@ {
                Ok(PieceView::Field(field, Some(TruncateMode::End)))
            } else {
                Err("unsupported template modifier '"@ + m + "', expected :start or :end"@)
            },
        },
    }
}

/// The pieces of the (unescaped) template text `s`, read from left to right.
pub open spec fn compile_pieces(s: Seq<char>) -> Result<Seq<PieceView>, Seq<char>>
    decreases s.len(),
{
    match find_pair(s, '{', '{') {
        None => if s.len() > 0 {
            Ok(seq![PieceView::Text(s)])
        } else {
            Ok(seq![])
        },
        Some(open) => {
            let before: Seq<PieceView> = if open > 0 {
                seq![PieceView::Text(s.take(open))]
            } else {
                seq![]
            };
            let after = s.skip(open + 2);
            match find_pair(after, '}', '}') {
                None => Err("unterminated template placeholder"@),
                Some(close) => match placeholder_piece(trim(after.take(close))) {
                    Err(e) => Err(e),
                    Ok(piece) => {
                        proof {
                            lemma_find_pair(s, '{', '{');
                            lemma_find_pair(after, '}', '}');
                        }
                        match compile_pieces(after.skip(close + 2)) {
                            Ok(rest) => Ok(before + seq![piece] + rest),
                            Err(e) => Err(e),
                        }
                    },
                },
            }
        },
    }
}

/// What `compile_template` makes of `template`.
pub open spec fn compiled(template: Seq<char>) -> Result<Seq<PieceView>, Seq<char>> {
    match compile_pieces(unescape_newlines(template)) {
        Ok(pieces) => if pieces.len() == 0 {
            Ok(seq![PieceView::Text(seq![])])
        } else {
            Ok(pieces)
        },
        Err(e) => Err(e),
    }
}

/// The text of the pieces filled in from `m`.
pub open spec fn rendered_text(pieces: Seq<PieceView>, m: TrackMetadata) -> Seq<char>
    decreases pieces.len(),
{
    if pieces.len() == 0 {
        seq![]
    } else {
        rendered_text(pieces.drop_last(), m) + match pieces.last() {
            PieceView::Text(t) => t,
            PieceView::Field(f, _) => field_text(f, m),
        }
    }
}

/// The truncation of the last placeholder that names one, else `fallback`.
pub open spec fn rendered_truncate(pieces: Seq<PieceView>, fallback: TruncateMode) -> TruncateMode
    decreases pieces.len(),
{
    if pieces.len() == 0 {
        fallback
    } else {
        match pieces.last() {
            PieceView::Field(_, Some(t)) => t,
            _ => rendered_truncate(pieces.drop_last(), fallback),
        }
    }
}

// ---------------------------------------------------------------------------
// Implementation
// ---------------------------------------------------------------------------

impl TemplateField {
    /// The field that a placeholder name refers to.
    pub fn parse(value: &str) -> (r: Option<Self>)
        ensures
            r == field_named(value@),
    {
        let v = chars_of(value);
        Self::parse_chars(v.as_slice())
    }

    fn parse_chars(v: &[char]) -> (r: Option<Self>)
        ensures
            r == field_named(v@),
    {
        if chars_equal_str(v, "artist") {
            Some(TemplateField::Artist)
        } else if chars_equal_str(v, "title") {
            Some(TemplateField::Title)
        } else if chars_equal_str(v, "album") {
            Some(TemplateField::Album)
        } else if chars_equal_str(v, "trackNumber") {
            Some(TemplateField::TrackNumber)
        } else if chars_equal_str(v, "length") {
            Some(TemplateField::Length)
        } else if chars_equal_str(v, "position") || chars_equal_str(v, "timestamp") {
            Some(TemplateField::Position)
        } else {
            None
        }
    }

    /// The metadata text that the field stands for.
    pub fn value(self, metadata: &TrackMetadata) -> (r: &str)
        ensures
            r@ == field_text(self, *metadata),
    {
        match self {
            TemplateField::Artist => metadata.artist.as_str(),
            TemplateField::Title => metadata.title.as_str(),
            TemplateField::Album => metadata.album.as_str(),
            TemplateField::TrackNumber => metadata.track_number.as_str(),
            TemplateField::Length => metadata.length.as_str(),
            TemplateField::Position => metadata.position.as_str(),
        }
    }
}

fn unescape_chars(v: &[char]) -> (r: Vec<char>)
    ensures
        r@ == unescape_newlines(v@),
{
    let mut out: Vec<char> = Vec::new();
    let mut i: usize = 0;
    assert(v@.skip(0) =~= v@);
    while i < v.len()
        invariant
            i <= v@.len(),
            unescape_newlines(v@) == out@ + unescape_newlines(v@.skip(i as int)),
        decreases v@.len() - i,
    {
        let ghost rest = v@.skip(i as int);
        if i + 1 < v.len() && v[i] == '\\' && v[i + 1] == 'n' {
            out.push('\n');
            assert(rest.skip(2) =~= v@.skip(i + 2));
            i = i + 2;
        } else {
            out.push(v[i]);
            assert(rest.drop_first() =~= v@.skip(i + 1));
            i = i + 1;
        }
        assert(out@ + unescape_newlines(v@.skip(i as int)) =~= out@.drop_last() + (seq![
            out@.last(),
        ] + unescape_newlines(v@.skip(i as int))));
    }
    assert(v@.skip(i as int) =~= Seq::<char>::empty());
    assert(out@ + Seq::<char>::empty() =~= out@);
    out
}

/// Compiles the placeholder whose token is `v[lo..hi]`, trimmed.
fn compile_placeholder(v: &[char], lo: usize, hi: usize) -> (r: Result<TemplatePiece, String>)
    requires
        lo <= hi <= v@.len(),
    ensures
        match placeholder_piece(trim(v@.subrange(lo as int, hi as int))) {
            Ok(p) => r matches Ok(piece) && piece@ == p,
            Err(e) => r matches Err(m) && m@ == e,
        },
{
    let (a, b) = trim_bounds(v, lo, hi);
    let ghost token = v@.subrange(a as int, b as int);
    let (name_lo, name_hi, modifier) = match find_char(v, a, b, ':') {
        Some(k) => {
            let (na, nb) = trim_bounds(v, a, k);
            let (ma, mb) = trim_bounds(v, k + 1, b);
            assert(token.take(k - a) =~= v@.subrange(a as int, k as int));
            assert(token.skip(k - a + 1) =~= v@.subrange(k + 1, b as int));
            (na, nb, Some((ma, mb)))
        },
        None => (a, b, None),
    };
    let name = sub_chars(v, name_lo, name_hi);
    let field = match TemplateField::parse_chars(name.as_slice()) {
        Some(f) => f,
        None => {
            let mut m = message("unknown template field '{{", name.as_slice(), "}}'");
            return Err(m);
        },
    };
    match modifier {
        None => Ok(TemplatePiece::Field { name: field, truncate: None }),
        Some((ma, mb)) => {
            let m = sub_chars(v, ma, mb);
            if chars_equal_str(m.as_slice(), "start") {
                Ok(TemplatePiece::Field { name: field, truncate: Some(TruncateMode::Start) })
            } else if chars_equal_str(m.as_slice(), "end") {
                Ok(TemplatePiece::Field { name: field, truncate: Some(TruncateMode::End) })
            } else {
                Err(
                    message(
                        "unsupported template modifier '",
                        m.as_slice(),
                        "', expected :start or :end",
                    ),
                )
            }
        },
    }
}

/// Splits a template into its text and placeholder pieces, or says what is
/// wrong with it.
pub fn compile_template(template: &str) -> (r: Result<Vec<TemplatePiece>, String>)
    ensures
        match compiled(template@) {
            Ok(p) => r matches Ok(pieces) && pieces_view(pieces@) == p,
            Err(e) => r matches Err(m) && m@ == e,
        },
{
    let raw = chars_of(template);
    let source = unescape_chars(raw.as_slice());
    let s = source.as_slice();
    let n = s.len();
    let ghost src = s@;
    let mut pieces: Vec<TemplatePiece> = Vec::new();
    let mut cursor: usize = 0;
    assert(src.skip(0) =~= src);
    loop
        invariant
            cursor <= n,
            n == s@.len(),
            src == s@,
            src == unescape_newlines(template@),
            compile_pieces(src) == match compile_pieces(src.skip(cursor as int)) {
                Ok(rest) => Ok(pieces_view(pieces@) + rest),
                Err(e) => Err(e),
            },
        ensures
            cursor <= n,
            find_pair(src.skip(cursor as int), '{', '{') is None,
        decreases n - cursor,
    {
        let ghost rest = src.skip(cursor as int);
        assert(rest =~= src.subrange(cursor as int, n as int));
        let open = match find_pair_in(s, cursor, n, '{', '{') {
            Some(o) => o,
            None => {
                break;
            },
        };
        let ghost o = open - cursor;
        let ghost after = rest.skip(o + 2);
        assert(after =~= src.subrange(open + 2, n as int));
        let close = match find_pair_in(s, open + 2, n, '}', '}') {
            Some(c) => c,
            None => {
                return Err("unterminated template placeholder".to_owned());
            },
        };
        let ghost c = close - (open + 2);
        assert(after.take(c) =~= src.subrange(open + 2, close as int));
        let piece = match compile_placeholder(s, open + 2, close) {
            Ok(p) => p,
            Err(e) => {
                return Err(e);
            },
        };
        let ghost before_view = pieces_view(pieces@);
        if open > cursor {
            let text = sub_chars(s, cursor, open);
            assert(rest.take(o) =~= text@);
            pieces.push(TemplatePiece::Text(crate::text::string_of(text.as_slice())));
        }
        pieces.push(piece);
        assert(after.skip(c + 2) =~= src.skip(close + 2));
        proof {
            let b: Seq<PieceView> = if o > 0 {
                seq![PieceView::Text(rest.take(o))]
            } else {
                seq![]
            };
            assert(pieces_view(pieces@) =~= before_view + b + seq![piece@]);
            match compile_pieces(src.skip(close + 2)) {
                Ok(tail) => {
                    assert(before_view + (b + seq![piece@] + tail) =~= pieces_view(pieces@)
                        + tail);
                },
                Err(e) => {},
            }
        }
        cursor = close + 2;
    }
    let ghost rest = src.skip(cursor as int);
    let ghost before_view = pieces_view(pieces@);
    if cursor < n {
        let text = sub_chars(s, cursor, n);
        assert(rest =~= text@);
        pieces.push(TemplatePiece::Text(crate::text::string_of(text.as_slice())));
        assert(pieces_view(pieces@) =~= before_view + seq![PieceView::Text(rest)]);
    } else {
        assert(rest.len() == 0);
        assert(before_view + Seq::<PieceView>::empty() =~= before_view);
    }
    if pieces.len() == 0 {
        pieces.push(TemplatePiece::Text(String::new()));
        assert(pieces_view(pieces@) =~= seq![PieceView::Text(seq![])]);
    }
    Ok(pieces)
}

/// Checks that a template compiles.
pub fn validate_template(template: &str) -> (r: Result<(), String>)
    ensures
        match compiled(template@) {
            Ok(_) => r is Ok,
            Err(e) => r matches Err(m) && m@ == e,
        },
{
    match compile_template(template) {
        Ok(_) => Ok(()),
        Err(e) => Err(e),
    }
}

/// Fills the template in from the metadata; the truncation is that of the
/// last placeholder that names one, else `fallback_truncate`.
pub fn render_template(
    template: &str,
    metadata: &TrackMetadata,
    fallback_truncate: TruncateMode,
) -> (r: Result<SectionRender, String>)
    ensures
        match compiled(template@) {
            Ok(p) => r matches Ok(section) && section.text@ == rendered_text(p, *metadata)
                && section.truncate == rendered_truncate(p, fallback_truncate),
            Err(e) => r matches Err(m) && m@ == e,
        },
{
    let pieces = compile_template(template)?;
    let ghost pv = pieces_view(pieces@);
    let mut text = String::new();
    let mut truncate: Option<TruncateMode> = None;
    let mut i: usize = 0;
    while i < pieces.len()
        invariant
            i <= pieces@.len(),
            pv == pieces_view(pieces@),
            text@ == rendered_text(pv.take(i as int), *metadata),
            rendered_truncate(pv.take(i as int), fallback_truncate) == match truncate {
                Some(t) => t,
                None => fallback_truncate,
            },
        decreases pieces@.len() - i,
    {
        assert(pv.take(i + 1).drop_last() =~= pv.take(i as int));
        assert(pv.take(i + 1).last() == pieces@[i as int]@);
        match &pieces[i] {
            TemplatePiece::Text(value) => {
                push_str(&mut text, value.as_str());
            },
            TemplatePiece::Field { name, truncate: modifier } => {
                push_str(&mut text, name.value(metadata));
                if modifier.is_some() {
                    truncate = *modifier;
                }
            },
        }
        i = i + 1;
    }
    assert(pv.take(i as int) =~= pv);
    Ok(
        SectionRender {
            text,
            truncate: match truncate {
                Some(t) => t,
                None => fallback_truncate,
            },
        },
    )
}

/// What a section shows: `None` when disabled or when its template does not
/// compile.
pub open spec fn section_shows(
    enabled: bool,
    template: Seq<char>,
    metadata: TrackMetadata,
    fallback: TruncateMode,
    r: Option<SectionRender>,
) -> bool {
    if !enabled {
        r is None
    } else {
        match compiled(template) {
            Ok(p) => r matches Some(s) && s.text@ == rendered_text(p, metadata) && s.truncate
                == rendered_truncate(p, fallback),
            Err(_) => r is None,
        }
    }
}

/// Renders the top and left sections of the metadata overlay.
pub fn render_metadata(config: &MetadataConfig, metadata: &TrackMetadata) -> (r: RenderedMetadata)
    ensures
        !config.enabled ==> r.top is None && r.left is None,
        config.enabled ==> section_shows(
            config.top.enabled,
            config.top.template@,
            *metadata,
            config.top.truncate,
            r.top,
        ),
        config.enabled ==> section_shows(
            config.left.enabled,
            config.left.template@,
            *metadata,
            config.left.truncate,
            r.left,
        ),
{
    if !config.enabled {
        return RenderedMetadata { top: None, left: None };
    }
    let top = if config.top.enabled {
        match render_template(config.top.template.as_str(), metadata, config.top.truncate) {
            Ok(s) => Some(s),
            Err(_) => None,
        }
    } else {
        None
    };
    let left = if config.left.enabled {
        match render_template(config.left.template.as_str(), metadata, config.left.truncate) {
            Ok(s) => Some(s),
            Err(_) => None,
        }
    } else {
        None
    };
    RenderedMetadata { top, left }
}

/// A template without placeholders renders as its own text, with each `\n`
/// escape turned into a line break, whatever the metadata.
pub proof fn law_plain_template_renders_itself(
    template: Seq<char>,
    metadata: TrackMetadata,
    fallback: TruncateMode,
)
    requires
        find_pair(unescape_newlines(template), '{', '{') is None,
    ensures
        compiled(template) matches Ok(p) && rendered_text(p, metadata) == unescape_newlines(
            template,
        ) && rendered_truncate(p, fallback) == fallback,
{
    let s = unescape_newlines(template);
    let p = seq![PieceView::Text(s)];
    if s.len() > 0 {
        assert(p.drop_last() =~= Seq::<PieceView>::empty());
        assert(rendered_text(p, metadata) == rendered_text(p.drop_last(), metadata) + s);
        assert(Seq::<char>::empty() + s =~= s);
        assert(rendered_truncate(p, fallback) == rendered_truncate(p.drop_last(), fallback));
        assert(compile_pieces(s) == Ok::<Seq<PieceView>, Seq<char>>(p));
    } else {
        let q = seq![PieceView::Text(seq![])];
        assert(q.drop_last() =~= Seq::<PieceView>::empty());
        assert(rendered_text(q, metadata) == rendered_text(q.drop_last(), metadata) + seq![]);
        assert(rendered_text(q, metadata) =~= s);
        assert(rendered_truncate(q, fallback) == rendered_truncate(q.drop_last(), fallback));
        assert(compile_pieces(s) == Ok::<Seq<PieceView>, Seq<char>>(seq![]));
    }
}

/// Characters that play no part in the template syntax.
pub open spec fn plain_name(n: Seq<char>) -> bool {
    forall|i: int|
        0 <= i < n.len() ==> #[trigger] n[i] != '{' && n[i] != '}' && n[i] != ':' && n[i] != '\\'
}

proof fn lemma_unescape_plain(s: Seq<char>)
    requires
        forall|i: int| 0 <= i < s.len() ==> #[trigger] s[i] != '\\',
    ensures
        unescape_newlines(s) == s,
    decreases s.len(),
{
    if s.len() > 0 {
        lemma_unescape_plain(s.drop_first());
        assert(seq![s[0]] + s.drop_first() =~= s);
    }
}

proof fn lemma_find_closing(n: Seq<char>)
    requires
        forall|i: int| 0 <= i < n.len() ==> #[trigger] n[i] != '}',
    ensures
        find_pair(n + "}}"@, '}', '}') == Some(n.len() as int),
    decreases n.len(),
{
    reveal_strlit("}}");
    if n.len() == 0 {
        assert(("}}"@)[0] == '}' && ("}}"@)[1] == '}');
    } else {
        lemma_find_closing(n.drop_first());
        assert((n + "}}"@).drop_first() =~= n.drop_first() + "}}"@);
    }
}

/// A template that is one placeholder naming a field, with nothing around
/// the name, compiles to that field alone.
proof fn lemma_single_field_template(n: Seq<char>, f: TemplateField)
    requires
        n.len() > 0,
        plain_name(n),
        !crate::text::is_white_space(n[0]),
        !crate::text::is_white_space(n.last()),
        field_named(n) == Some(f),
    ensures
        compiled("{{"@ + n + "}}"@) == Ok::<Seq<PieceView>, Seq<char>>(seq![PieceView::Field(f, None)]),
{
    reveal_strlit("{{");
    reveal_strlit("}}");
    let s = "{{"@ + n + "}}"@;
    assert forall|i: int| 0 <= i < s.len() implies #[trigger] s[i] != '\\' by {
        if 2 <= i < 2 + n.len() {
            assert(s[i] == n[i - 2]);
        }
    }
    lemma_unescape_plain(s);
    assert(s[0] == '{' && s[1] == '{');
    let after = s.skip(2);
    assert(after =~= n + "}}"@);
    lemma_find_closing(n);
    assert(after.take(n.len() as int) =~= n);
    assert(crate::text::trim(n) == n);
    crate::text::lemma_first_index_of_none(n, ':');
    assert(after.skip(n.len() + 2int) =~= Seq::<char>::empty());
    assert(compile_pieces(Seq::<char>::empty()) == Ok::<Seq<PieceView>, Seq<char>>(seq![]));
    assert(seq![] + seq![PieceView::Field(f, None)] + seq![] =~= seq![PieceView::Field(f, None)]);
}

/// The default templates, `{{artist}}` and `{{title}}`, compile.
pub proof fn lemma_default_templates_compile()
    ensures
        compiled("{{artist}}"@) is Ok,
        compiled("{{title}}"@) is Ok,
{
    reveal_strlit("{{artist}}");
    reveal_strlit("{{title}}");
    reveal_strlit("{{");
    reveal_strlit("}}");
    reveal_strlit("artist");
    reveal_strlit("title");
    let a = "artist"@;
    let t = "title"@;
    assert(plain_name(a)) by {
        assert forall|i: int| 0 <= i < a.len() implies #[trigger] a[i] != '{' && a[i] != '}' && a[i]
            != ':' && a[i] != '\\' by {
            if i == 0 {
            } else if i == 1 {
            } else if i == 2 {
            } else if i == 3 {
            } else if i == 4 {
            } else {
            }
        }
    }
    assert(plain_name(t)) by {
        assert forall|i: int| 0 <= i < t.len() implies #[trigger] t[i] != '{' && t[i] != '}' && t[i]
            != ':' && t[i] != '\\' by {
            if i == 0 {
            } else if i == 1 {
            } else if i == 2 {
            } else if i == 3 {
            } else {
            }
        }
    }
    assert("{{artist}}"@ =~= "{{"@ + a + "}}"@);
    assert("{{title}}"@ =~= "{{"@ + t + "}}"@);
    lemma_single_field_template(a, TemplateField::Artist);
    assert(t != a) by {
        assert(t.len() != a.len());
    }
    lemma_single_field_template(t, TemplateField::Title);
}

/// A template that is one placeholder naming a field renders that field's
/// text, and keeps the fallback truncation.
proof fn lemma_placeholder_renders(n: Seq<char>, f: TemplateField, m: TrackMetadata, fallback: TruncateMode)
    requires
        n.len() > 0,
        plain_name(n),
        !crate::text::is_white_space(n[0]),
        !crate::text::is_white_space(n.last()),
        field_named(n) == Some(f),
    ensures
        compiled("{{"@ + n + "}}"@) matches Ok(p) && rendered_text(p, m) == field_text(f, m)
            && rendered_truncate(p, fallback) == fallback,
{
    lemma_single_field_template(n, f);
    let p = seq![PieceView::Field(f, None)];
    assert(p.drop_last() =~= Seq::<PieceView>::empty());
    assert(rendered_text(p, m) == rendered_text(p.drop_last(), m) + field_text(f, m));
    assert(Seq::<char>::empty() + field_text(f, m) =~= field_text(f, m));
    assert(rendered_truncate(p, fallback) == rendered_truncate(p.drop_last(), fallback));
}

/// Each placeholder renders the metadata field of its own name, whatever
/// the metadata: `{{artist}}` the artist, `{{title}}` the title,
/// `{{album}}` the album, `{{trackNumber}}` the track number, `{{length}}`
/// the length, and `{{position}}` and `{{timestamp}}` the position.
pub proof fn law_placeholders_render_their_fields(m: TrackMetadata, fallback: TruncateMode)
    ensures
        compiled("{{artist}}"@) matches Ok(p) && rendered_text(p, m) == m.artist@
            && rendered_truncate(p, fallback) == fallback,
        compiled("{{title}}"@) matches Ok(p) && rendered_text(p, m) == m.title@
            && rendered_truncate(p, fallback) == fallback,
        compiled("{{album}}"@) matches Ok(p) && rendered_text(p, m) == m.album@
            && rendered_truncate(p, fallback) == fallback,
        compiled("{{trackNumber}}"@) matches Ok(p) && rendered_text(p, m) == m.track_number@
            && rendered_truncate(p, fallback) == fallback,
        compiled("{{length}}"@) matches Ok(p) && rendered_text(p, m) == m.length@
            && rendered_truncate(p, fallback) == fallback,
        compiled("{{position}}"@) matches Ok(p) && rendered_text(p, m) == m.position@
            && rendered_truncate(p, fallback) == fallback,
        compiled("{{timestamp}}"@) matches Ok(p) && rendered_text(p, m) == m.position@
            && rendered_truncate(p, fallback) == fallback,
{
    reveal_strlit("{{");
    reveal_strlit("}}");
    reveal_strlit("artist");
    reveal_strlit("title");
    reveal_strlit("album");
    reveal_strlit("trackNumber");
    reveal_strlit("length");
    reveal_strlit("position");
    reveal_strlit("timestamp");
    reveal_strlit("{{artist}}");
    assert("{{artist}}"@ =~= "{{"@ + "artist"@ + "}}"@);
    assert("artist"@.len() == 6);
    lemma_placeholder_renders("artist"@, TemplateField::Artist, m, fallback);
    reveal_strlit("{{title}}");
    assert("{{title}}"@ =~= "{{"@ + "title"@ + "}}"@);
    assert("title"@.len() == 5);
    assert("title"@ != "artist"@);
    lemma_placeholder_renders("title"@, TemplateField::Title, m, fallback);
    reveal_strlit("{{album}}");
    assert("{{album}}"@ =~= "{{"@ + "album"@ + "}}"@);
    assert("album"@.len() == 5);
    assert("album"@ != "artist"@);
    assert("album"@ != "title"@) by { assert("album"@[0] != "title"@[0]); }
    lemma_placeholder_renders("album"@, TemplateField::Album, m, fallback);
    reveal_strlit("{{trackNumber}}");
    assert("{{trackNumber}}"@ =~= "{{"@ + "trackNumber"@ + "}}"@);
    assert("trackNumber"@.len() == 11);
    assert("trackNumber"@ != "artist"@);
    assert("trackNumber"@ != "title"@);
    assert("trackNumber"@ != "album"@);
    lemma_placeholder_renders("trackNumber"@, TemplateField::TrackNumber, m, fallback);
    reveal_strlit("{{length}}");
    assert("{{length}}"@ =~= "{{"@ + "length"@ + "}}"@);
    assert("length"@.len() == 6);
    assert("length"@ != "artist"@) by { assert("length"@[0] != "artist"@[0]); }
    assert("length"@ != "title"@);
    assert("length"@ != "album"@);
    assert("length"@ != "trackNumber"@);
    lemma_placeholder_renders("length"@, TemplateField::Length, m, fallback);
    reveal_strlit("{{position}}");
    assert("{{position}}"@ =~= "{{"@ + "position"@ + "}}"@);
    assert("position"@.len() == 8);
    assert("position"@ != "artist"@);
    assert("position"@ != "title"@);
    assert("position"@ != "album"@);
    assert("position"@ != "trackNumber"@);
    assert("position"@ != "length"@);
    lemma_placeholder_renders("position"@, TemplateField::Position, m, fallback);
    reveal_strlit("{{timestamp}}");
    assert("{{timestamp}}"@ =~= "{{"@ + "timestamp"@ + "}}"@);
    assert("timestamp"@.len() == 9);
    assert("timestamp"@ != "artist"@);
    assert("timestamp"@ != "title"@);
    assert("timestamp"@ != "album"@);
    assert("timestamp"@ != "trackNumber"@);
    assert("timestamp"@ != "length"@);
    assert("timestamp"@ != "position"@);
    lemma_placeholder_renders("timestamp"@, TemplateField::Position, m, fallback);
}

/// Characters that play no part in the template syntax, `:` allowed.
pub open spec fn plain_token(n: Seq<char>) -> bool {
    forall|i: int| 0 <= i < n.len() ==> #[trigger] n[i] != '{' && n[i] != '}' && n[i] != '\\'
}

/// A template that is one placeholder, with nothing around its token,
/// compiles to that placeholder alone.
proof fn lemma_single_placeholder_template(tok: Seq<char>, piece: PieceView)
    requires
        tok.len() > 0,
        plain_token(tok),
        !crate::text::is_white_space(tok[0]),
        !crate::text::is_white_space(tok.last()),
        placeholder_piece(tok) == Ok::<PieceView, Seq<char>>(piece),
    ensures
        compiled("{{"@ + tok + "}}"@) == Ok::<Seq<PieceView>, Seq<char>>(seq![piece]),
{
    reveal_strlit("{{");
    reveal_strlit("}}");
    let s = "{{"@ + tok + "}}"@;
    assert forall|i: int| 0 <= i < s.len() implies #[trigger] s[i] != '\\' by {
        if 2 <= i < 2 + tok.len() {
            assert(s[i] == tok[i - 2]);
        }
    }
    lemma_unescape_plain(s);
    assert(s[0] == '{' && s[1] == '{');
    let after = s.skip(2);
    assert(after =~= tok + "}}"@);
    lemma_find_closing(tok);
    assert(after.take(tok.len() as int) =~= tok);
    assert(crate::text::trim(tok) == tok);
    assert(after.skip(tok.len() + 2int) =~= Seq::<char>::empty());
    assert(compile_pieces(Seq::<char>::empty()) == Ok::<Seq<PieceView>, Seq<char>>(seq![]));
    assert(seq![] + seq![piece] + seq![] =~= seq![piece]);
}

/// The token `name:modifier` splits at its colon into the name and the
/// modifier.
proof fn lemma_split_modified_token(n: Seq<char>, md: Seq<char>)
    requires
        n.len() > 0,
        md.len() > 0,
        plain_name(n),
        plain_name(md),
        !crate::text::is_white_space(n[0]),
        !crate::text::is_white_space(n.last()),
        !crate::text::is_white_space(md[0]),
        !crate::text::is_white_space(md.last()),
    ensures
        split_token(n + seq![':'] + md) == (n, Some(md)),
{
    let tok = n + seq![':'] + md;
    assert(tok[n.len() as int] == ':');
    assert forall|j: int| 0 <= j < n.len() implies tok[j] != ':' by {
        assert(tok[j] == n[j]);
    }
    crate::text::lemma_first_index_of_unique(tok, ':', n.len() as int);
    assert(tok.take(n.len() as int) =~= n);
    assert(tok.skip(n.len() + 1int) =~= md);
    assert(crate::text::trim(n) == n);
    assert(crate::text::trim(md) == md);
}

/// The modifiers `:start` and `:end` set the truncation of a placeholder
/// to the start and to the end, whatever the field and the fallback, and
/// the placeholder still renders its field.
pub proof fn law_truncation_modifiers(n: Seq<char>, m: TrackMetadata, fallback: TruncateMode)
    requires
        n.len() > 0,
        plain_name(n),
        !crate::text::is_white_space(n[0]),
        !crate::text::is_white_space(n.last()),
        field_named(n) is Some,
    ensures
        compiled("{{"@ + n + ":start}}"@) matches Ok(p) && rendered_text(p, m) == field_text(
            field_named(n)->0,
            m,
        ) && rendered_truncate(p, fallback) == TruncateMode::Start,
        compiled("{{"@ + n + ":end}}"@) matches Ok(p) && rendered_text(p, m) == field_text(
            field_named(n)->0,
            m,
        ) && rendered_truncate(p, fallback) == TruncateMode::End,
{
    reveal_strlit("start");
    reveal_strlit("end");
    reveal_strlit(":start}}");
    reveal_strlit(":end}}");
    reveal_strlit("}}");
    let f = field_named(n)->0;
    let st = "start"@;
    let en = "end"@;
    assert(st.len() == 5 && en.len() == 3);
    assert(st != en);
    let ts = n + seq![':'] + st;
    let te = n + seq![':'] + en;
    lemma_split_modified_token(n, st);
    lemma_split_modified_token(n, en);
    assert forall|i: int| 0 <= i < ts.len() implies #[trigger] ts[i] != '{' && ts[i] != '}'
        && ts[i] != '\\' by {
        if i < n.len() {
            assert(ts[i] == n[i]);
        }
    }
    assert forall|i: int| 0 <= i < te.len() implies #[trigger] te[i] != '{' && te[i] != '}'
        && te[i] != '\\' by {
        if i < n.len() {
            assert(te[i] == n[i]);
        }
    }
    let ps = PieceView::Field(f, Some(TruncateMode::Start));
    let pe = PieceView::Field(f, Some(TruncateMode::End));
    lemma_single_placeholder_template(ts, ps);
    lemma_single_placeholder_template(te, pe);
    assert("{{"@ + n + ":start}}"@ =~= "{{"@ + ts + "}}"@);
    assert("{{"@ + n + ":end}}"@ =~= "{{"@ + te + "}}"@);
    let qs = seq![ps];
    let qe = seq![pe];
    assert(qs.drop_last() =~= Seq::<PieceView>::empty());
    assert(qe.drop_last() =~= Seq::<PieceView>::empty());
    assert(rendered_text(qs, m) == rendered_text(qs.drop_last(), m) + field_text(f, m));
    assert(rendered_text(qe, m) == rendered_text(qe.drop_last(), m) + field_text(f, m));
    assert(Seq::<char>::empty() + field_text(f, m) =~= field_text(f, m));
}

/// Each `\n` escape becomes one line break where it stands, and text
/// without a backslash is left as it is.
pub proof fn law_newline_escapes(a: Seq<char>, b: Seq<char>)
    ensures
        unescape_newlines(a + seq!['\\', 'n'] + b) == unescape_newlines(a) + seq!['\n']
            + unescape_newlines(b),
        (forall|i: int| 0 <= i < a.len() ==> #[trigger] a[i] != '\\') ==> unescape_newlines(a) == a,
    decreases a.len(),
{
    let x = seq!['\\', 'n'] + b;
    let s = a + x;
    assert(a + seq!['\\', 'n'] + b =~= s);
    if a.len() == 0 {
        assert(s =~= x);
        assert(x.skip(2) =~= b);
        assert(unescape_newlines(s) == seq!['\n'] + unescape_newlines(s.skip(2)));
        assert(unescape_newlines(a) =~= Seq::<char>::empty());
        assert(seq!['\n'] + unescape_newlines(b) =~= Seq::<char>::empty() + seq!['\n']
            + unescape_newlines(b));
    } else if a.len() >= 2 && a[0] == '\\' && a[1] == 'n' {
        law_newline_escapes(a.skip(2), b);
        assert(s.skip(2) =~= a.skip(2) + seq!['\\', 'n'] + b);
        assert(s[0] == '\\' && s[1] == 'n');
        assert(unescape_newlines(s) == seq!['\n'] + unescape_newlines(s.skip(2)));
        assert(unescape_newlines(a) == seq!['\n'] + unescape_newlines(a.skip(2)));
        assert(seq!['\n'] + (unescape_newlines(a.skip(2)) + seq!['\n'] + unescape_newlines(b))
            =~= seq!['\n'] + unescape_newlines(a.skip(2)) + seq!['\n'] + unescape_newlines(b));
    } else {
        law_newline_escapes(a.drop_first(), b);
        assert(s.drop_first() =~= a.drop_first() + seq!['\\', 'n'] + b);
        assert(s[0] == a[0]);
        if a.len() == 1 {
            assert(s[1] == '\\');
        } else {
            assert(s[1] == a[1]);
        }
        assert(unescape_newlines(s) == seq![s[0]] + unescape_newlines(s.drop_first()));
        assert(unescape_newlines(a) == seq![a[0]] + unescape_newlines(a.drop_first()));
        assert(seq![a[0]] + (unescape_newlines(a.drop_first()) + seq!['\n'] + unescape_newlines(b))
            =~= seq![a[0]] + unescape_newlines(a.drop_first()) + seq!['\n'] + unescape_newlines(b));
    }
    if forall|i: int| 0 <= i < a.len() ==> #[trigger] a[i] != '\\' {
        lemma_unescape_plain(a);
    }
}

} // verus!
