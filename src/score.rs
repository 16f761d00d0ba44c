//! The score model and the mappers that build it from XML elements.
use vstd::prelude::*;
use crate::error::{Error, ErrorView, result_view};
use crate::extract::{
    attr_u16_spec, chd_u8_spec, optional_attr_u8_spec, optional_chd_u8_spec,
    required_chd_text_spec, text_parse_failed, parse_attr_u16, parse_chd_text,
    parse_chd_text_u8, parse_optional_attr_u8, parse_optional_chd_text_u8,
};
use crate::scalar::{char_of, digits_value, parse_char, unsigned_digits};
use crate::xml::{
    XmlNode, children_tagged, find_tagged, node_attr, str_eq, tagged,
    xml_root_of,
};

verus! {

/// A record that is built from an XML element of a fixed tag.
pub trait FromNode: Sized + View {
    /// The tag of the elements this record is built from.
    spec fn tag_spec() -> Seq<char>;

    /// What building from `node` gives: the record's view, or the first error.
    spec fn node_model(node: XmlNode) -> Result<Self::V, ErrorView>;

    fn tag() -> (r: &'static str)
        ensures
            r@ == Self::tag_spec(),
    ;

    fn from_node(node: &XmlNode) -> (r: Result<Self, Error>)
        ensures
            result_view(r) == Self::node_model(*node),
    ;
}

pub open spec fn views<T: View>(s: Seq<T>) -> Seq<T::V> {
    s.map_values(|x: T| x@)
}

/// Builds a record from each node in order; the first failure stops it.
pub open spec fn collect_models<T: FromNode>(s: Seq<XmlNode>) -> Result<Seq<T::V>, ErrorView>
    decreases s.len(),
{
    if s.len() == 0 {
        Ok(Seq::empty())
    } else {
        match collect_models::<T>(s.drop_last()) {
            Err(e) => Err(e),
            Ok(v) => match T::node_model(s.last()) {
                Err(e) => Err(e),
                Ok(x) => Ok(v.push(x)),
            },
        }
    }
}

/// The records built from the children of `node` that carry `T`'s tag.
pub open spec fn children_models<T: FromNode>(node: XmlNode) -> Result<Seq<T::V>, ErrorView> {
    collect_models::<T>(children_tagged(node, T::tag_spec()))
}

/// The record built from the first child of `node` with `T`'s tag, if any.
pub open spec fn option_model<T: FromNode>(node: XmlNode) -> Result<Option<T::V>, ErrorView> {
    let m = children_tagged(node, T::tag_spec());
    if m.len() == 0 {
        Ok(None)
    } else {
        match T::node_model(m[0]) {
            Ok(x) => Ok(Some(x)),
            Err(e) => Err(e),
        }
    }
}

pub open spec fn vec_result_view<T: View>(r: Result<Vec<T>, Error>) -> Result<Seq<T::V>, ErrorView> {
    match r {
        Ok(v) => Ok(views(v@)),
        Err(e) => Err(e@),
    }
}

pub open spec fn option_result_view<T: View>(r: Result<Option<T>, Error>) -> Result<Option<T::V>, ErrorView> {
    match r {
        Ok(Some(x)) => Ok(Some(x@)),
        Ok(None) => Ok(None),
        Err(e) => Err(e@),
    }
}

proof fn lemma_collect_err_extends<T: FromNode>(s: Seq<XmlNode>, tag: Seq<char>, k: int)
    requires
        0 <= k <= s.len(),
        collect_models::<T>(tagged(s.subrange(0, k), tag)) is Err,
    ensures
        collect_models::<T>(tagged(s, tag)) == collect_models::<T>(tagged(s.subrange(0, k), tag)),
    decreases s.len() - k,
{
    if k < s.len() {
        let a = s.subrange(0, k + 1);
        assert(a.drop_last() =~= s.subrange(0, k));
        let p = tagged(s.subrange(0, k), tag);
        if a.last().tag@ == tag {
            assert(p.push(a.last()).drop_last() =~= p);
        }
        lemma_collect_err_extends::<T>(s, tag, k + 1);
    } else {
        assert(s.subrange(0, k) =~= s);
    }
}

/// Builds a record from each child with `T`'s tag, in document order.
fn parse_children<T: FromNode>(node: &XmlNode) -> (r: Result<Vec<T>, Error>)
    ensures
        vec_result_view(r) == children_models::<T>(*node),
{
    let tag = T::tag();
    let ch = &node.children;
    let mut out: Vec<T> = Vec::new();
    let mut i: usize = 0;
    assert(ch@.subrange(0, 0) =~= Seq::<XmlNode>::empty());
    assert(views(out@) =~= Seq::<T::V>::empty());
    while i < ch.len()
        invariant
            ch@ == node.children@,
            i <= ch@.len(),
            tag@ == T::tag_spec(),
            collect_models::<T>(tagged(ch@.subrange(0, i as int), tag@)) == Ok::<
                Seq<T::V>,
                ErrorView,
            >(views(out@)),
        decreases ch@.len() - i,
    {
        let a = Ghost(ch@.subrange(0, i + 1));
        assert(a@.drop_last() =~= ch@.subrange(0, i as int));
        assert(a@.last() == ch@[i as int]);
        if str_eq(ch[i].tag.as_str(), tag) {
            let p = Ghost(tagged(ch@.subrange(0, i as int), tag@));
            assert(p@.push(ch@[i as int]).drop_last() =~= p@);
            match T::from_node(&ch[i]) {
                Ok(x) => {
                    let ghost before = out@;
                    out.push(x);
                    assert(views(out@) =~= views(before).push(x@));
                },
                Err(e) => {
                    proof {
                        lemma_collect_err_extends::<T>(ch@, tag@, i + 1);
                    }
                    return Err(e);
                },
            }
        }
        i = i + 1;
    }
    assert(ch@.subrange(0, ch@.len() as int) =~= ch@);
    Ok(out)
}

/// Builds a record from the first child with `T`'s tag, if there is one.
fn parse_option_chd<T: FromNode>(node: &XmlNode) -> (r: Result<Option<T>, Error>)
    ensures
        option_result_view(r) == option_model::<T>(*node),
{
    match find_tagged(node, T::tag()) {
        Some(i) => match T::from_node(&node.children[i]) {
            Ok(x) => Ok(Some(x)),
            Err(e) => Err(e),
        },
        None => Ok(None),
    }
}

/// A clef: its staff number, sign and optional line.
#[derive(Debug, Clone, Copy, PartialEq, Eq)]
pub struct Clef {
    pub number: u8,
    pub sign: char,
    pub line: Option<u8>,
}

impl View for Clef {
    type V = Clef;

    open spec fn view(&self) -> Clef {
        *self
    }
}

impl FromNode for Clef {
    open spec fn tag_spec() -> Seq<char> {
        "clef"@
    }

    /// The `number` attribute defaults to 1; `sign` is required, `line` optional.
    open spec fn node_model(node: XmlNode) -> Result<Clef, ErrorView> {
        match optional_attr_u8_spec(node, "number"@) {
            Err(e) => Err(e),
            Ok(number) => match crate::extract::chd_char_spec(node, "sign"@) {
                Err(e) => Err(e),
                Ok(sign) => match optional_chd_u8_spec(node, "line"@) {
                    Err(e) => Err(e),
                    Ok(line) => Ok(
                        Clef {
                            number: match number {
                                Some(n) => n,
                                None => 1,
                            },
                            sign: sign,
                            line: line,
                        },
                    ),
                },
            },
        }
    }

    fn tag() -> (r: &'static str) {
        "clef"
    }

    fn from_node(node: &XmlNode) -> (r: Result<Clef, Error>) {
        let number = match parse_optional_attr_u8(node, "number")? {
            Some(n) => n,
            None => 1,
        };
        let sign = crate::extract::parse_chd_text_char(node, "sign")?;
        let line = parse_optional_chd_text_u8(node, "line")?;
        Ok(Clef { number, sign, line })
    }
}

/// The attributes of a measure: divisions, staves and the clefs.
#[derive(Debug)]
pub struct Attribute {
    pub divisions: u8,
    pub staves: u8,
    pub clef: Vec<Clef>,
}

pub struct AttributeView {
    pub divisions: u8,
    pub staves: u8,
    pub clef: Seq<Clef>,
}

impl View for Attribute {
    type V = AttributeView;

    open spec fn view(&self) -> AttributeView {
        AttributeView { divisions: self.divisions, staves: self.staves, clef: views(self.clef@) }
    }
}

impl FromNode for Attribute {
    open spec fn tag_spec() -> Seq<char> {
        "attributes"@
    }

    /// `divisions` and `staves` are required; every `clef` child is read.
    open spec fn node_model(node: XmlNode) -> Result<AttributeView, ErrorView> {
        match chd_u8_spec(node, "divisions"@) {
            Err(e) => Err(e),
            Ok(divisions) => match chd_u8_spec(node, "staves"@) {
                Err(e) => Err(e),
                Ok(staves) => match children_models::<Clef>(node) {
                    Err(e) => Err(e),
                    Ok(clef) => Ok(AttributeView { divisions, staves, clef }),
                },
            },
        }
    }

    fn tag() -> (r: &'static str) {
        "attributes"
    }

    fn from_node(node: &XmlNode) -> (r: Result<Attribute, Error>) {
        let divisions = parse_chd_text_u8(node, "divisions")?;
        let staves = parse_chd_text_u8(node, "staves")?;
        let clef = parse_children::<Clef>(node)?;
        Ok(Attribute { divisions, staves, clef })
    }
}

/// The marker of a rest.
#[derive(Debug, Clone, Copy, PartialEq, Eq)]
pub struct Rest();

impl View for Rest {
    type V = Rest;

    open spec fn view(&self) -> Rest {
        *self
    }
}

impl FromNode for Rest {
    open spec fn tag_spec() -> Seq<char> {
        "rest"@
    }

    open spec fn node_model(node: XmlNode) -> Result<Rest, ErrorView> {
        Ok(Rest())
    }

    fn tag() -> (r: &'static str) {
        "rest"
    }

    fn from_node(node: &XmlNode) -> (r: Result<Rest, Error>) {
        Ok(Rest())
    }
}

/// The scale degree of a step letter: C is 1, D is 2, ..., A is 6, B is 7.
pub open spec fn step_degree(c: char) -> Option<u8> {
    if 'A' <= c <= 'G' {
        Some((((c as u32 - 'A' as u32) + 5) % 7 + 1) as u8)
    } else {
        None
    }
}

/// The scale degree of a step letter, as [`step_degree`] gives it.
pub fn step_of_letter(c: char) -> (r: Option<u8>)
    ensures
        r == step_degree(c),
{
    if 'A' <= c && c <= 'G' {
        Some((((c as u32 - 'A' as u32) + 5) % 7 + 1) as u8)
    } else {
        None
    }
}

/// A pitch: scale degree of the step, alteration and octave.
#[derive(Debug, Clone, Copy, PartialEq, Eq)]
pub struct Pitch {
    pub step: u8,
    pub alter: u8,
    pub octave: u8,
}

impl View for Pitch {
    type V = Pitch;

    open spec fn view(&self) -> Pitch {
        *self
    }
}

/// The `step` child as a scale degree.
pub open spec fn step_spec(node: XmlNode) -> Result<u8, ErrorView> {
    match required_chd_text_spec(node, "step"@) {
        Err(e) => Err(e),
        Ok(t) => match char_of(t) {
            None => Err(text_parse_failed("step"@, t, "char"@)),
            Some(c) => match step_degree(c) {
                None => Err(text_parse_failed("step"@, t, "step letter"@)),
                Some(d) => Ok(d),
            },
        },
    }
}

impl FromNode for Pitch {
    open spec fn tag_spec() -> Seq<char> {
        "pitch"@
    }

    /// `step` is a letter A to G mapped to its degree, `alter` defaults to 0,
    /// `octave` is required.
    open spec fn node_model(node: XmlNode) -> Result<Pitch, ErrorView> {
        match step_spec(node) {
            Err(e) => Err(e),
            Ok(step) => match optional_chd_u8_spec(node, "alter"@) {
                Err(e) => Err(e),
                Ok(alter) => match chd_u8_spec(node, "octave"@) {
                    Err(e) => Err(e),
                    Ok(octave) => Ok(
                        Pitch {
                            step,
                            alter: match alter {
                                Some(a) => a,
                                None => 0,
                            },
                            octave,
                        },
                    ),
                },
            },
        }
    }

    fn tag() -> (r: &'static str) {
        "pitch"
    }

    fn from_node(node: &XmlNode) -> (r: Result<Pitch, Error>) {
        let t = parse_chd_text(node, "step")?;
        let step = match parse_char(t.as_str()) {
            None => {
                return Err(
                    Error::NodeTextParseFailed {
                        tag: "step".to_owned(),
                        text: t,
                        ty: "char".to_owned(),
                    },
                );
            },
            Some(c) => match step_of_letter(c) {
                None => {
                    return Err(
                        Error::NodeTextParseFailed {
                            tag: "step".to_owned(),
                            text: t,
                            ty: "step letter".to_owned(),
                        },
                    );
                },
                Some(d) => d,
            },
        };
        let alter = match parse_optional_chd_text_u8(node, "alter")? {
            Some(a) => a,
            None => 0,
        };
        let octave = parse_chd_text_u8(node, "octave")?;
        Ok(Pitch { step, alter, octave })
    }
}

/// What a note sounds: a rest or a pitch.
#[derive(Debug, Clone, Copy, PartialEq, Eq)]
pub enum NoteType {
    Rest(Rest),
    Pitch(Pitch),
}

/// A note: a rest or a pitch, and its duration.
#[derive(Debug, Clone, Copy, PartialEq, Eq)]
pub struct Note {
    pub note_type: NoteType,
    pub duration: u8,
}

impl View for Note {
    type V = Note;

    open spec fn view(&self) -> Note {
        *self
    }
}

/// The tags of the group of which a note holds exactly one.
pub open spec fn note_group_tags() -> Seq<Seq<char>> {
    seq!["rest"@, "pitch"@]
}

/// The `duration` child as a `u8`, or 0 when it cannot be read.
pub open spec fn duration_spec(node: XmlNode) -> u8 {
    match chd_u8_spec(node, "duration"@) {
        Ok(d) => d,
        Err(_) => 0,
    }
}

impl FromNode for Note {
    open spec fn tag_spec() -> Seq<char> {
        "note"@
    }

    /// Exactly one of `rest` and `pitch`; the duration is read leniently.
    open spec fn node_model(node: XmlNode) -> Result<Note, ErrorView> {
        match option_model::<Pitch>(node) {
            Err(e) => Err(e),
            Ok(pitch) => {
                let rest = children_tagged(node, "rest"@).len() > 0;
                if rest && pitch is Some {
                    Err(
                        ErrorView::ExclusiveNodeFound {
                            tags: note_group_tags(),
                            parent_tag: "note"@,
                        },
                    )
                } else if rest {
                    Ok(Note { note_type: NoteType::Rest(Rest()), duration: duration_spec(node) })
                } else {
                    match pitch {
                        Some(p) => Ok(
                            Note { note_type: NoteType::Pitch(p), duration: duration_spec(node) },
                        ),
                        None => Err(
                            ErrorView::ExclusiveNodeGroupNotFound {
                                tags: note_group_tags(),
                                parent_tag: "note"@,
                            },
                        ),
                    }
                }
            },
        }
    }

    fn tag() -> (r: &'static str) {
        "note"
    }

    fn from_node(node: &XmlNode) -> (r: Result<Note, Error>) {
        let rest = parse_option_chd::<Rest>(node)?;
        let pitch = parse_option_chd::<Pitch>(node)?;
        if rest.is_some() && pitch.is_some() {
            let tags = vec!["rest".to_owned(), "pitch".to_owned()];
            assert(crate::error::strings_view(tags@) =~= note_group_tags());
            return Err(Error::ExclusiveNodeFound { tags, parent_tag: "note".to_owned() });
        }
        let note_type = match rest {
            Some(r) => NoteType::Rest(r),
            None => match pitch {
                Some(p) => NoteType::Pitch(p),
                None => {
                    let tags = vec!["rest".to_owned(), "pitch".to_owned()];
                    assert(crate::error::strings_view(tags@) =~= note_group_tags());
                    return Err(
                        Error::ExclusiveNodeGroupNotFound { tags, parent_tag: "note".to_owned() },
                    );
                },
            },
        };
        let duration = match parse_chd_text_u8(node, "duration") {
            Ok(d) => d,
            Err(_) => 0,
        };
        Ok(Note { note_type, duration })
    }
}

/// A measure: its number, optional attributes and notes.
#[derive(Debug)]
pub struct Measure {
    pub number: u16,
    pub attr: Option<Attribute>,
    pub notes: Vec<Note>,
}

pub struct MeasureView {
    pub number: u16,
    pub attr: Option<AttributeView>,
    pub notes: Seq<Note>,
}

impl View for Measure {
    type V = MeasureView;

    open spec fn view(&self) -> MeasureView {
        MeasureView {
            number: self.number,
            attr: match self.attr {
                Some(a) => Some(a@),
                None => None,
            },
            notes: views(self.notes@),
        }
    }
}

impl FromNode for Measure {
    open spec fn tag_spec() -> Seq<char> {
        "measure"@
    }

    /// `number` is a required attribute; the first `attributes` child is read,
    /// and every `note` child.
    open spec fn node_model(node: XmlNode) -> Result<MeasureView, ErrorView> {
        match attr_u16_spec(node, "number"@) {
            Err(e) => Err(e),
            Ok(number) => match option_model::<Attribute>(node) {
                Err(e) => Err(e),
                Ok(attr) => match children_models::<Note>(node) {
                    Err(e) => Err(e),
                    Ok(notes) => Ok(MeasureView { number, attr, notes }),
                },
            },
        }
    }

    fn tag() -> (r: &'static str) {
        "measure"
    }

    fn from_node(node: &XmlNode) -> (r: Result<Measure, Error>) {
        let number = parse_attr_u16(node, "number")?;
        let attr = parse_option_chd::<Attribute>(node)?;
        let notes = parse_children::<Note>(node)?;
        Ok(Measure { number, attr, notes })
    }
}

/// A part: its measures in document order.
#[derive(Debug)]
pub struct Part {
    pub measures: Vec<Measure>,
}

pub struct PartView {
    pub measures: Seq<MeasureView>,
}

impl View for Part {
    type V = PartView;

    open spec fn view(&self) -> PartView {
        PartView { measures: views(self.measures@) }
    }
}

impl FromNode for Part {
    open spec fn tag_spec() -> Seq<char> {
        "part"@
    }

    open spec fn node_model(node: XmlNode) -> Result<PartView, ErrorView> {
        match children_models::<Measure>(node) {
            Err(e) => Err(e),
            Ok(measures) => Ok(PartView { measures }),
        }
    }

    fn tag() -> (r: &'static str) {
        "part"
    }

    fn from_node(node: &XmlNode) -> (r: Result<Part, Error>) {
        let measures = parse_children::<Measure>(node)?;
        Ok(Part { measures })
    }
}

/// A score: its parts in document order.
#[derive(Debug)]
pub struct Score {
    pub parts: Vec<Part>,
}

pub struct ScoreView {
    pub parts: Seq<PartView>,
}

impl View for Score {
    type V = ScoreView;

    open spec fn view(&self) -> ScoreView {
        ScoreView { parts: views(self.parts@) }
    }
}

impl FromNode for Score {
    open spec fn tag_spec() -> Seq<char> {
        "score-partwise"@
    }

    open spec fn node_model(node: XmlNode) -> Result<ScoreView, ErrorView> {
        match children_models::<Part>(node) {
            Err(e) => Err(e),
            Ok(parts) => Ok(ScoreView { parts }),
        }
    }

    fn tag() -> (r: &'static str) {
        "score-partwise"
    }

    fn from_node(node: &XmlNode) -> (r: Result<Score, Error>) {
        let parts = parse_children::<Part>(node)?;
        Ok(Score { parts })
    }
}

impl Score {
    /// Parses XML text and builds the score from its root element.
    pub fn from_xml(xml: &str) -> (r: Result<Score, Error>)
        ensures
            xml_root_of(xml@) is None ==> r matches Err(Error::XmlDocParseFailed { .. }),
            xml_root_of(xml@) matches Some(root) ==> result_view(r) == Score::node_model(root),
    {
        let root = crate::xml::parse_document(xml)?;
        Score::from_node(&root)
    }
}

/// Mapping a sequence of nodes keeps their number and order: the record at
/// each position is the one built from the node at that position.
pub proof fn lemma_collect_keeps_order<T: FromNode>(s: Seq<XmlNode>)
    requires
        collect_models::<T>(s) is Ok,
    ensures
        collect_models::<T>(s)->Ok_0.len() == s.len(),
        forall|i: int|
            0 <= i < s.len() ==> T::node_model(#[trigger] s[i]) == Ok::<T::V, ErrorView>(
                collect_models::<T>(s)->Ok_0[i],
            ),
    decreases s.len(),
{
    if s.len() > 0 {
        lemma_collect_keeps_order::<T>(s.drop_last());
        assert forall|i: int| 0 <= i < s.len() implies T::node_model(#[trigger] s[i]) == Ok::<
            T::V,
            ErrorView,
        >(collect_models::<T>(s)->Ok_0[i]) by {
            if i < s.len() - 1 {
                assert(s[i] == s.drop_last()[i]);
            }
        }
    }
}

/// A decoded score holds one part for each `part` child of the root, in
/// document order, and each part one measure for each `measure` child of the
/// corresponding element, in document order.
pub proof fn lemma_score_keeps_document_order(root: XmlNode)
    requires
        Score::node_model(root) is Ok,
    ensures
        ({
            let parts = Score::node_model(root)->Ok_0.parts;
            let part_nodes = children_tagged(root, "part"@);
            &&& parts.len() == part_nodes.len()
            &&& forall|i: int|
                0 <= i < part_nodes.len() ==> {
                    let measures = parts[i].measures;
                    let measure_nodes = children_tagged(#[trigger] part_nodes[i], "measure"@);
                    &&& Part::node_model(part_nodes[i]) == Ok::<PartView, ErrorView>(parts[i])
                    &&& measures.len() == measure_nodes.len()
                    &&& forall|j: int|
                        0 <= j < measure_nodes.len() ==> Measure::node_model(
                            #[trigger] measure_nodes[j],
                        ) == Ok::<MeasureView, ErrorView>(measures[j])
                }
        }),
{
    let part_nodes = children_tagged(root, "part"@);
    lemma_collect_keeps_order::<Part>(part_nodes);
    assert forall|i: int| 0 <= i < part_nodes.len() implies {
        let parts = Score::node_model(root)->Ok_0.parts;
        let measures = parts[i].measures;
        let measure_nodes = children_tagged(#[trigger] part_nodes[i], "measure"@);
        &&& Part::node_model(part_nodes[i]) == Ok::<PartView, ErrorView>(parts[i])
        &&& measures.len() == measure_nodes.len()
        &&& forall|j: int|
            0 <= j < measure_nodes.len() ==> Measure::node_model(#[trigger] measure_nodes[j])
                == Ok::<MeasureView, ErrorView>(measures[j])
    } by {
        lemma_collect_keeps_order::<Measure>(children_tagged(part_nodes[i], "measure"@));
    }
}

/// A note with both a `rest` and a `pitch` child fails with `ExclusiveNodeFound`,
/// one with neither fails with `ExclusiveNodeGroupNotFound`, and one with exactly
/// one of them succeeds with that variant (a malformed `pitch` reports its own
/// error first, so it is left out here).
pub proof fn lemma_note_exclusive_group(node: XmlNode)
    requires
        option_model::<Pitch>(node) is Ok,
    ensures
        ({
            let has_rest = children_tagged(node, "rest"@).len() > 0;
            let has_pitch = children_tagged(node, "pitch"@).len() > 0;
            &&& has_rest && has_pitch ==> (Note::node_model(node) matches Err(
                ErrorView::ExclusiveNodeFound { .. },
            ))
            &&& !has_rest && !has_pitch ==> (Note::node_model(node) matches Err(
                ErrorView::ExclusiveNodeGroupNotFound { .. },
            ))
            &&& has_rest && !has_pitch ==> (Note::node_model(node) matches Ok(n)
                && n.note_type is Rest)
            &&& !has_rest && has_pitch ==> (Note::node_model(node) matches Ok(n)
                && n.note_type is Pitch)
        }),
{
}

/// The step letters A to G map to the degrees 6, 7, 1, 2, 3, 4, 5, and every
/// other character to none.
pub proof fn lemma_step_degrees()
    ensures
        step_degree('A') == Some(6u8),
        step_degree('B') == Some(7u8),
        step_degree('C') == Some(1u8),
        step_degree('D') == Some(2u8),
        step_degree('E') == Some(3u8),
        step_degree('F') == Some(4u8),
        step_degree('G') == Some(5u8),
        forall|c: char| !('A' <= c <= 'G') ==> step_degree(c) is None,
{
}

/// A pitch whose step is a single character other than A to G fails to parse.
pub proof fn lemma_step_other_letter_fails(node: XmlNode)
    requires
        required_chd_text_spec(node, "step"@) matches Ok(t) && t.len() == 1 && !('A' <= t[0]
            <= 'G'),
    ensures
        Pitch::node_model(node) matches Err(ErrorView::NodeTextParseFailed { tag, .. })
            && tag == "step"@,
{
}

/// A clef without a `number` attribute has number 1; with `number="2"` it has 2.
pub proof fn lemma_clef_number(node: XmlNode)
    requires
        Clef::node_model(node) is Ok,
    ensures
        node_attr(node, "number"@) is None ==> Clef::node_model(node)->Ok_0.number == 1,
        node_attr(node, "number"@) == Some("2"@) ==> Clef::node_model(node)->Ok_0.number == 2,
{
    reveal_strlit("2");
    let d = seq!['2'];
    assert(d.drop_last() =~= Seq::<char>::empty());
    assert(d.last() == '2');
    assert(digits_value(d.drop_last()) == 0);
    assert(digits_value(d) == 2);
    assert(unsigned_digits("2"@) =~= d);
}

} // verus!
