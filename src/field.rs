use crate::text::{
    contains_whitespace, has_whitespace, lemma_join_no_whitespace, lemma_split_delim,
    lemma_split_extend, lemma_split_single, split_on, split_str, str_equal,
};
use vstd::prelude::*;
use vstd::string::*;

verus! {

/// Whether a rendered field carries the public-access marker.
#[derive(Debug, Clone, Copy, PartialEq, Eq, Structural)]
pub enum FieldVisibility {
    Public,
    Private,
}

/// A visibility token that is neither `pub` nor `pri`: a message and the token.
#[derive(Debug, PartialEq, Eq)]
pub struct FieldVisibilityError {
    pub msg: String,
    pub token: String,
}

/// What went wrong while reading a field descriptor.
#[derive(Debug, PartialEq, Eq)]
pub enum FieldDefinitionErrorKind {
    /// The descriptor holds white space.
    Space,
    /// Reserved for a type name that is refused; the parser gives no such error.
    InvalidType,
    /// Not two or three segments, or an empty name or type.
    InvalidFormat,
    /// The visibility segment is unknown; the cause is kept.
    InvalidVisibility(FieldVisibilityError),
}

/// A rejected field descriptor: the kind of fault and a readable message.
#[derive(Debug, PartialEq, Eq)]
pub struct FieldDefinitionError {
    pub kind: FieldDefinitionErrorKind,
    pub msg: String,
}

/// One field of a model: its name, its type and its visibility.
#[derive(Debug, PartialEq, Eq)]
pub struct FieldDefinition {
    name: String,
    ty: String,
    visibility: FieldVisibility,
}

/// The abstract value of a [`FieldDefinition`].
pub struct FieldModel {
    pub name: Seq<char>,
    pub ty: Seq<char>,
    pub visibility: FieldVisibility,
}

/// The visibility that a token names, if any.
pub open spec fn visibility_of(t: Seq<char>) -> Option<FieldVisibility> {
    if t == "pub"@ {
        Some(FieldVisibility::Public)
    } else if t == "pri"@ {
        Some(FieldVisibility::Private)
    } else {
        None
    }
}

/// The text that a visibility renders to.
pub open spec fn visibility_text(v: FieldVisibility) -> Seq<char> {
    match v {
        FieldVisibility::Public => "pub"@,
        FieldVisibility::Private => Seq::<char>::empty(),
    }
}

/// The segments of a descriptor between its colons.
pub open spec fn segments(s: Seq<char>) -> Seq<Seq<char>> {
    split_on(s, ':')
}

/// A descriptor with two or three segments.
pub open spec fn has_segment_count(s: Seq<char>) -> bool {
    segments(s).len() == 2 || segments(s).len() == 3
}

/// A descriptor whose third segment names no visibility.
pub open spec fn has_unknown_visibility(s: Seq<char>) -> bool {
    segments(s).len() == 3 && visibility_of(segments(s)[2]) is None
}

/// A descriptor free of white space, with two or three segments, a known
/// visibility if there are three, and a name and a type that are not empty.
pub open spec fn is_field_descriptor(s: Seq<char>) -> bool {
    &&& !has_whitespace(s)
    &&& has_segment_count(s)
    &&& !has_unknown_visibility(s)
    &&& segments(s)[0].len() > 0
    &&& segments(s)[1].len() > 0
}

/// The field that a well-formed descriptor stands for.
pub open spec fn descriptor_field(s: Seq<char>) -> FieldModel {
    let segs = segments(s);
    FieldModel {
        name: segs[0],
        ty: segs[1],
        visibility: if segs.len() == 2 {
            FieldVisibility::Public
        } else {
            visibility_of(segs[2])->Some_0
        },
    }
}

/// `e` is the error that reading descriptor `s` gives: white space first,
/// then a wrong number of segments, then an unknown visibility, and last an
/// empty name or type.
pub open spec fn reports(e: FieldDefinitionError, s: Seq<char>) -> bool {
    if has_whitespace(s) {
        e.kind is Space && e.msg@ == "Space not allowed in field definition"@
    } else if !has_segment_count(s) {
        e.kind is InvalidFormat && e.msg@ == "Malformed field definition"@
    } else if has_unknown_visibility(s) {
        &&& match e.kind {
            FieldDefinitionErrorKind::InvalidVisibility(v) => v.msg@
                == "Invalid visibility specified"@ && v.token@ == segments(s)[2],
            _ => false,
        }
        &&& e.msg@ == "Invalid visibility"@
    } else {
        e.kind is InvalidFormat && e.msg@ == "Malformed field definition"@
    }
}

impl FieldModel {
    /// Name and type are non-empty and hold neither white space nor a colon.
    pub open spec fn well_formed(self) -> bool {
        &&& self.name.len() > 0
        &&& self.ty.len() > 0
        &&& !has_whitespace(self.name)
        &&& !has_whitespace(self.ty)
        &&& !self.name.contains(':')
        &&& !self.ty.contains(':')
    }

    /// The text of the field's declaration line, without indentation or line break.
    pub open spec fn line(self) -> Seq<char> {
        match self.visibility {
            FieldVisibility::Public => "pub "@ + self.name + ": "@ + self.ty + ","@,
            FieldVisibility::Private => self.name + ": "@ + self.ty + ","@,
        }
    }
}

impl FieldVisibilityError {
    pub fn new(msg: &str, token: &str) -> (r: FieldVisibilityError)
        ensures
            r.msg@ == msg@,
            r.token@ == token@,
    {
        FieldVisibilityError { msg: msg.to_owned(), token: token.to_owned() }
    }

    /// The message of the error.
    pub fn to_string(&self) -> (r: String)
        ensures
            r@ == self.msg@,
    {
        self.msg.clone()
    }
}

impl FieldVisibility {
    /// Reads a visibility token: `pub` is public, `pri` is private.
    pub fn from_str(s: &str) -> (r: Result<FieldVisibility, FieldVisibilityError>)
        ensures
            match visibility_of(s@) {
                Some(v) => r == Ok::<FieldVisibility, FieldVisibilityError>(v),
                None => r is Err && r->Err_0.msg@ == "Invalid visibility specified"@
                    && r->Err_0.token@ == s@,
            },
    {
        if str_equal(s, "pub") {
            Ok(FieldVisibility::Public)
        } else if str_equal(s, "pri") {
            Ok(FieldVisibility::Private)
        } else {
            Err(FieldVisibilityError::new("Invalid visibility specified", s))
        }
    }

    /// The marker written before a field: `pub` or nothing.
    pub fn to_string(&self) -> (r: String)
        ensures
            r@ == visibility_text(*self),
    {
        match self {
            FieldVisibility::Public => String::from_str("pub"),
            FieldVisibility::Private => String::new(),
        }
    }
}

impl FieldDefinitionError {
    pub fn new(kind: FieldDefinitionErrorKind, msg: &str) -> (r: FieldDefinitionError)
        ensures
            r.kind == kind,
            r.msg@ == msg@,
    {
        FieldDefinitionError { kind, msg: msg.to_owned() }
    }

    /// Wraps a visibility fault as the cause of a descriptor fault.
    pub fn from_visibility_error(error: FieldVisibilityError) -> (r: FieldDefinitionError)
        ensures
            r.kind == FieldDefinitionErrorKind::InvalidVisibility(error),
            r.msg@ == "Invalid visibility"@,
    {
        FieldDefinitionError::new(FieldDefinitionErrorKind::InvalidVisibility(error), "Invalid visibility")
    }

    /// The message of the error.
    pub fn to_string(&self) -> (r: String)
        ensures
            r@ == self.msg@,
    {
        self.msg.clone()
    }
}

impl View for FieldDefinition {
    type V = FieldModel;

    closed spec fn view(&self) -> FieldModel {
        FieldModel { name: self.name@, ty: self.ty@, visibility: self.visibility }
    }
}

impl FieldDefinition {
    #[verifier::type_invariant]
    spec fn inv(&self) -> bool {
        self@.well_formed()
    }

    pub fn name(&self) -> (r: &str)
        ensures
            r@ == self@.name,
    {
        self.name.as_str()
    }

    pub fn ty(&self) -> (r: &str)
        ensures
            r@ == self@.ty,
    {
        self.ty.as_str()
    }

    pub fn visibility(&self) -> (r: FieldVisibility)
        ensures
            r == self@.visibility,
    {
        self.visibility
    }

    /// Reads a descriptor `name:type` or `name:type:visibility`.
    ///
    /// White space anywhere is refused first; then a wrong number of
    /// segments; then an unknown visibility; then an empty name or type.
    pub fn from_str(s: &str) -> (r: Result<FieldDefinition, FieldDefinitionError>)
        ensures
            r is Ok <==> is_field_descriptor(s@),
            r is Ok ==> r->Ok_0@ == descriptor_field(s@) && r->Ok_0@.well_formed(),
            r is Err ==> reports(r->Err_0, s@),
    {
        if contains_whitespace(s) {
            return Err(
                FieldDefinitionError::new(
                    FieldDefinitionErrorKind::Space,
                    "Space not allowed in field definition",
                ),
            );
        }
        let segs = split_str(s, ':');
        let ghost pieces = segs@.map_values(|p: String| p@);
        assert(pieces == segments(s@));
        proof {
            if segs.len() == 2 || segs.len() == 3 {
                assert(pieces[0] == segs@[0]@);
                assert(pieces[1] == segs@[1]@);
            }
        }
        if segs.len() != 2 && segs.len() != 3 {
            return Err(
                FieldDefinitionError::new(
                    FieldDefinitionErrorKind::InvalidFormat,
                    "Malformed field definition",
                ),
            );
        }
        let visibility = if segs.len() == 3 {
            assert(pieces[2] == segs@[2]@);
            match FieldVisibility::from_str(segs[2].as_str()) {
                Ok(v) => v,
                Err(e) => {
                    return Err(FieldDefinitionError::from_visibility_error(e));
                },
            }
        } else {
            FieldVisibility::Public
        };
        if segs[0].unicode_len() == 0 || segs[1].unicode_len() == 0 {
            return Err(
                FieldDefinitionError::new(
                    FieldDefinitionErrorKind::InvalidFormat,
                    "Malformed field definition",
                ),
            );
        }
        proof {
            lemma_segment_clean(s@, 0);
            lemma_segment_clean(s@, 1);
        }
        Ok(FieldDefinition { name: segs[0].clone(), ty: segs[1].clone(), visibility })
    }

    /// The declaration line of the field, such as `pub id: i32,`.
    pub fn to_string(&self) -> (r: String)
        ensures
            r@ == self@.line(),
    {
        let mut out = String::new();
        match self.visibility {
            FieldVisibility::Public => out.append("pub "),
            FieldVisibility::Private => {},
        }
        out.append(self.name.as_str());
        out.append(": ");
        out.append(self.ty.as_str());
        out.append(",");
        proof {
            assert(out@ =~= self@.line());
        }
        out
    }
}

/// A descriptor `name:type`, with a name and a type that are not empty and
/// hold neither white space nor a colon, reads as a public field with that
/// name and that type.
pub proof fn lemma_name_type_descriptor(n: Seq<char>, t: Seq<char>)
    requires
        n.len() > 0,
        t.len() > 0,
        !has_whitespace(n),
        !has_whitespace(t),
        !n.contains(':'),
        !t.contains(':'),
    ensures
        segments(n.push(':') + t) == seq![n, t],
        is_field_descriptor(n.push(':') + t),
        descriptor_field(n.push(':') + t) == (FieldModel {
            name: n,
            ty: t,
            visibility: FieldVisibility::Public,
        }),
{
    lemma_split_single(n, ':');
    lemma_split_delim(n, ':');
    lemma_split_extend(n.push(':'), t, ':');
    assert(Seq::<char>::empty() + t =~= t);
    assert(segments(n.push(':') + t) =~= seq![n, t]);
    lemma_join_no_whitespace(n, ':', t);
}

/// A descriptor `name:type:pub` reads as a public field and `name:type:pri`
/// as a private one, with that name and that type.
pub proof fn lemma_name_type_visibility_descriptor(n: Seq<char>, t: Seq<char>, v: Seq<char>)
    requires
        n.len() > 0,
        t.len() > 0,
        !has_whitespace(n),
        !has_whitespace(t),
        !n.contains(':'),
        !t.contains(':'),
        v == "pub"@ || v == "pri"@,
    ensures
        is_field_descriptor((n.push(':') + t).push(':') + v),
        descriptor_field((n.push(':') + t).push(':') + v) == (FieldModel {
            name: n,
            ty: t,
            visibility: if v == "pub"@ {
                FieldVisibility::Public
            } else {
                FieldVisibility::Private
            },
        }),
{
    reveal_strlit("pub");
    reveal_strlit("pri");
    let nt = n.push(':') + t;
    lemma_name_type_descriptor(n, t);
    lemma_split_delim(nt, ':');
    assert(!v.contains(':')) by {
        if v.contains(':') {
            let i = choose|i: int| 0 <= i < v.len() && v[i] == ':';
        }
    }
    assert(!has_whitespace(v)) by {
        if has_whitespace(v) {
            let i = choose|i: int| 0 <= i < v.len() && crate::text::is_whitespace_char(v[i]);
        }
    }
    lemma_split_extend(nt.push(':'), v, ':');
    assert(Seq::<char>::empty() + v =~= v);
    assert(segments(nt.push(':') + v) =~= seq![n, t, v]);
    lemma_join_no_whitespace(nt, ':', v);
}

/// Every segment of a descriptor without white space is free of white space
/// and of the delimiter.
pub proof fn lemma_segment_clean(s: Seq<char>, k: int)
    requires
        !has_whitespace(s),
        0 <= k < segments(s).len(),
    ensures
        !has_whitespace(segments(s)[k]),
        !segments(s)[k].contains(':'),
    decreases s.len(),
{
    if s.len() > 0 {
        let prev = segments(s.drop_last());
        crate::text::lemma_split_nonempty(s.drop_last(), ':');
        assert forall|i: int| 0 <= i < s.drop_last().len() implies !crate::text::is_whitespace_char(
            #[trigger] s.drop_last()[i],
        ) by {
            assert(s.drop_last()[i] == s[i]);
        }
        if k < prev.len() {
            lemma_segment_clean(s.drop_last(), k);
        }
        if s.last() != ':' && k == prev.len() - 1 {
            let seg = prev.last().push(s.last());
            assert(!crate::text::is_whitespace_char(s[s.len() - 1]));
            assert forall|i: int| 0 <= i < seg.len() implies !crate::text::is_whitespace_char(
                #[trigger] seg[i],
            ) by {
                if i < seg.len() - 1 {
                    assert(seg[i] == prev.last()[i]);
                }
            }
            assert forall|i: int| 0 <= i < seg.len() implies seg[i] != ':' by {
                if i < seg.len() - 1 {
                    assert(seg[i] == prev.last()[i]);
                }
            }
        }
    }
}

impl std::str::FromStr for FieldVisibility {
    type Err = FieldVisibilityError;

    fn from_str(s: &str) -> Result<FieldVisibility, FieldVisibilityError> {
        FieldVisibility::from_str(s)
    }
}

impl std::str::FromStr for FieldDefinition {
    type Err = FieldDefinitionError;

    fn from_str(s: &str) -> Result<FieldDefinition, FieldDefinitionError> {
        FieldDefinition::from_str(s)
    }
}

impl std::convert::From<FieldVisibilityError> for FieldDefinitionError {
    fn from(error: FieldVisibilityError) -> FieldDefinitionError {
        FieldDefinitionError::from_visibility_error(error)
    }
}

impl vstd::std_specs::convert::FromSpecImpl<FieldVisibilityError> for FieldDefinitionError {
    /// The message is a `String`, which no spec value can build; the
    /// contract of `from_visibility_error` states the result instead.
    open spec fn obeys_from_spec() -> bool {
        false
    }

    open spec fn from_spec(v: FieldVisibilityError) -> FieldDefinitionError {
        arbitrary()
    }
}

} // verus!
