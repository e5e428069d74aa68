//! The syntax model the generators operate on.
//!
//! The pipeline's data are *descriptions*: structured templates of an enum and
//! its variants on the input side, structured declarations on the output side.
//! Every executable node type has a spec-level mirror reached through
//! `deep_view`, and every generator is specified as a pure function over the
//! mirrors; the executable generators are proved equal to those functions.
use vstd::prelude::*;
use vstd::string::StrSliceExecFns;

verus! {

// ------------------------------------------------------------------
// Input model
// ------------------------------------------------------------------
/// One named, typed field of a record-shaped payload.
#[derive(Debug, Clone, PartialEq, Eq)]
pub struct FieldDef {
    pub name: String,
    pub ty: String,
}

pub struct SpecField {
    pub name: Seq<char>,
    pub ty: Seq<char>,
}

impl DeepView for FieldDef {
    type V = SpecField;

    open spec fn deep_view(&self) -> SpecField {
        SpecField { name: self.name@, ty: self.ty@ }
    }
}

/// One (variant identifier, payload type) pair of an enum whose every variant
/// wraps a single payload type.
#[derive(Debug, Clone, PartialEq, Eq)]
pub struct VariantTy {
    pub name: String,
    pub ty: String,
}

pub struct SpecVariantTy {
    pub name: Seq<char>,
    pub ty: Seq<char>,
}

impl DeepView for VariantTy {
    type V = SpecVariantTy;

    open spec fn deep_view(&self) -> SpecVariantTy {
        SpecVariantTy { name: self.name@, ty: self.ty@ }
    }
}

/// The payload shape of one variant: an ordered list of field types, an
/// ordered list of named fields, or no payload at all.
#[derive(Debug, Clone, PartialEq, Eq)]
pub enum Shape {
    Tuple(Vec<String>),
    Record(Vec<FieldDef>),
    Unit,
}

pub enum SpecShape {
    Tuple(Seq<Seq<char>>),
    Record(Seq<SpecField>),
    Unit,
}

impl DeepView for Shape {
    type V = SpecShape;

    open spec fn deep_view(&self) -> SpecShape {
        match self {
            Shape::Tuple(tys) => SpecShape::Tuple(tys.deep_view()),
            Shape::Record(fields) => SpecShape::Record(fields.deep_view()),
            Shape::Unit => SpecShape::Unit,
        }
    }
}

/// One variant of a described enum: its attributes, an optional skip marker
/// (the caller supplies the payload type externally), its identifier, its own
/// generics and bounds, and its payload shape.
#[derive(Debug, Clone, PartialEq, Eq)]
pub struct VariantSpec {
    pub attrs: Vec<String>,
    pub skip: bool,
    pub name: String,
    pub generics: Vec<String>,
    pub shape: Shape,
    pub bounds: Vec<String>,
}

pub struct SpecVariant {
    pub attrs: Seq<Seq<char>>,
    pub skip: bool,
    pub name: Seq<char>,
    pub generics: Seq<Seq<char>>,
    pub shape: SpecShape,
    pub bounds: Seq<Seq<char>>,
}

impl DeepView for VariantSpec {
    type V = SpecVariant;

    open spec fn deep_view(&self) -> SpecVariant {
        SpecVariant {
            attrs: self.attrs.deep_view(),
            skip: self.skip,
            name: self.name@,
            generics: self.generics.deep_view(),
            shape: self.shape.deep_view(),
            bounds: self.bounds.deep_view(),
        }
    }
}

/// A described enum: attributes, visibility, identifier, generics, bounds and
/// the ordered variant list.
#[derive(Debug, Clone, PartialEq, Eq)]
pub struct EnumSpec {
    pub attrs: Vec<String>,
    pub vis: String,
    pub name: String,
    pub generics: Vec<String>,
    pub bounds: Vec<String>,
    pub variants: Vec<VariantSpec>,
}

pub struct SpecEnum {
    pub attrs: Seq<Seq<char>>,
    pub vis: Seq<char>,
    pub name: Seq<char>,
    pub generics: Seq<Seq<char>>,
    pub bounds: Seq<Seq<char>>,
    pub variants: Seq<SpecVariant>,
}

impl DeepView for EnumSpec {
    type V = SpecEnum;

    open spec fn deep_view(&self) -> SpecEnum {
        SpecEnum {
            attrs: self.attrs.deep_view(),
            vis: self.vis@,
            name: self.name@,
            generics: self.generics.deep_view(),
            bounds: self.bounds.deep_view(),
            variants: self.variants.deep_view(),
        }
    }
}

/// The identifiers of an enum's variants, in declaration order.
pub open spec fn variant_names(vs: Seq<SpecVariant>) -> Seq<Seq<char>> {
    vs.map_values(|v: SpecVariant| v.name)
}

/// Variant identifiers must be unique within their owning enum.
pub open spec fn distinct_seqs(names: Seq<Seq<char>>) -> bool {
    forall|i: int, j: int| 0 <= i < j < names.len() ==> names[i] != names[j]
}

/// Well-formedness of an enum description: its variant identifiers are
/// pairwise distinct.
pub open spec fn enum_wf(e: SpecEnum) -> bool {
    distinct_seqs(variant_names(e.variants))
}

// ------------------------------------------------------------------
// Output model
// ------------------------------------------------------------------
/// A generated standalone type declaration: a tuple-like type (one public
/// field per listed type, in order), a record-like type (one public field per
/// name/type pair), or a zero-field marker type.
#[derive(Debug, Clone, PartialEq, Eq)]
pub struct TypeDecl {
    pub attrs: Vec<String>,
    pub vis: String,
    pub name: String,
    pub generics: Vec<String>,
    pub shape: Shape,
    pub bounds: Vec<String>,
}

pub struct SpecTypeDecl {
    pub attrs: Seq<Seq<char>>,
    pub vis: Seq<char>,
    pub name: Seq<char>,
    pub generics: Seq<Seq<char>>,
    pub shape: SpecShape,
    pub bounds: Seq<Seq<char>>,
}

impl DeepView for TypeDecl {
    type V = SpecTypeDecl;

    open spec fn deep_view(&self) -> SpecTypeDecl {
        SpecTypeDecl {
            attrs: self.attrs.deep_view(),
            vis: self.vis@,
            name: self.name@,
            generics: self.generics.deep_view(),
            shape: self.shape.deep_view(),
            bounds: self.bounds.deep_view(),
        }
    }
}

/// One arm of a generated enum declaration: the variant identifier and, for
/// payload-carrying arms, the single payload type it wraps.
#[derive(Debug, Clone, PartialEq, Eq)]
pub struct EnumArm {
    pub name: String,
    pub payload: Option<String>,
}

pub struct SpecEnumArm {
    pub name: Seq<char>,
    pub payload: Option<Seq<char>>,
}

impl DeepView for EnumArm {
    type V = SpecEnumArm;

    open spec fn deep_view(&self) -> SpecEnumArm {
        SpecEnumArm { name: self.name@, payload: self.payload.deep_view() }
    }
}

/// A generated enum declaration.
#[derive(Debug, Clone, PartialEq, Eq)]
pub struct EnumDecl {
    pub attrs: Vec<String>,
    pub vis: String,
    pub name: String,
    pub generics: Vec<String>,
    pub bounds: Vec<String>,
    pub arms: Vec<EnumArm>,
}

pub struct SpecEnumDecl {
    pub attrs: Seq<Seq<char>>,
    pub vis: Seq<char>,
    pub name: Seq<char>,
    pub generics: Seq<Seq<char>>,
    pub bounds: Seq<Seq<char>>,
    pub arms: Seq<SpecEnumArm>,
}

impl DeepView for EnumDecl {
    type V = SpecEnumDecl;

    open spec fn deep_view(&self) -> SpecEnumDecl {
        SpecEnumDecl {
            attrs: self.attrs.deep_view(),
            vis: self.vis@,
            name: self.name@,
            generics: self.generics.deep_view(),
            bounds: self.bounds.deep_view(),
            arms: self.arms.deep_view(),
        }
    }
}

/// The arms of a generated enum whose every variant wraps one payload type.
pub open spec fn spec_arms_of_pairs(pairs: Seq<SpecVariantTy>) -> Seq<SpecEnumArm> {
    pairs.map_values(|p: SpecVariantTy| SpecEnumArm { name: p.name, payload: Some(p.ty) })
}

/// The arms of a generated enum whose variants carry no payload.
pub open spec fn spec_unit_arms(names: Seq<Seq<char>>) -> Seq<SpecEnumArm> {
    names.map_values(|n: Seq<char>| SpecEnumArm { name: n, payload: None })
}

/// The variant identifiers of a (variant, payload type) pair list, in order.
pub open spec fn spec_names_of_pairs(pairs: Seq<SpecVariantTy>) -> Seq<Seq<char>> {
    pairs.map_values(|p: SpecVariantTy| p.name)
}

/// Builds the arm list of an enum declaration from its pair list.
pub fn arms_of_pairs(pairs: &Vec<VariantTy>) -> (r: Vec<EnumArm>)
    ensures
        r.deep_view() == spec_arms_of_pairs(pairs.deep_view()),
{
    let mut out: Vec<EnumArm> = Vec::new();
    let n = pairs.len();
    let mut i: usize = 0;
    while i < n
        invariant
            n == pairs.len(),
            0 <= i <= n,
            out.deep_view().len() == i as int,
            forall|j: int|
                0 <= j < i as int ==> out.deep_view()[j] == (SpecEnumArm {
                    name: pairs.deep_view()[j].name,
                    payload: Some(pairs.deep_view()[j].ty),
                }),
        decreases n - i,
    {
        let ghost prev = out.deep_view();
        let arm = EnumArm { name: clone_string(&pairs[i].name), payload: Some(clone_string(&pairs[i].ty)) };
        out.push(arm);
        proof {
            assert(out.deep_view() =~= prev.push(
                SpecEnumArm {
                    name: pairs.deep_view()[i as int].name,
                    payload: Some(pairs.deep_view()[i as int].ty),
                },
            ));
        }
        i = i + 1;
    }
    proof {
        assert(out.deep_view() =~= spec_arms_of_pairs(pairs.deep_view()));
    }
    out
}

/// Builds the arm list of a payload-less enum declaration.
pub fn unit_arms(names: &Vec<String>) -> (r: Vec<EnumArm>)
    ensures
        r.deep_view() == spec_unit_arms(names.deep_view()),
{
    let mut out: Vec<EnumArm> = Vec::new();
    let n = names.len();
    let mut i: usize = 0;
    while i < n
        invariant
            n == names.len(),
            0 <= i <= n,
            out.deep_view().len() == i as int,
            forall|j: int|
                0 <= j < i as int ==> out.deep_view()[j] == (SpecEnumArm {
                    name: names.deep_view()[j],
                    payload: None,
                }),
        decreases n - i,
    {
        let ghost prev = out.deep_view();
        out.push(EnumArm { name: clone_string(&names[i]), payload: None });
        proof {
            assert(out.deep_view() =~= prev.push(
                SpecEnumArm { name: names.deep_view()[i as int], payload: None },
            ));
        }
        i = i + 1;
    }
    proof {
        assert(out.deep_view() =~= spec_unit_arms(names.deep_view()));
    }
    out
}

/// The variant identifiers of a pair list, in order.
pub fn names_of_pairs(pairs: &Vec<VariantTy>) -> (r: Vec<String>)
    ensures
        r.deep_view() == spec_names_of_pairs(pairs.deep_view()),
{
    let mut out: Vec<String> = Vec::new();
    let n = pairs.len();
    let mut i: usize = 0;
    while i < n
        invariant
            n == pairs.len(),
            0 <= i <= n,
            out.deep_view().len() == i as int,
            forall|j: int| 0 <= j < i as int ==> out.deep_view()[j] == pairs.deep_view()[j].name,
        decreases n - i,
    {
        let ghost prev = out.deep_view();
        out.push(clone_string(&pairs[i].name));
        proof {
            assert(out.deep_view() =~= prev.push(pairs.deep_view()[i as int].name));
        }
        i = i + 1;
    }
    proof {
        assert(out.deep_view() =~= spec_names_of_pairs(pairs.deep_view()));
    }
    out
}

// ------------------------------------------------------------------
// Cloning helpers (clones that provably preserve the deep view)
// ------------------------------------------------------------------
pub fn clone_string(s: &String) -> (r: String)
    ensures
        r@ == s@,
{
    s.clone()
}

pub fn clone_strings(v: &Vec<String>) -> (r: Vec<String>)
    ensures
        r.deep_view() == v.deep_view(),
{
    let mut out: Vec<String> = Vec::new();
    let n = v.len();
    let mut i: usize = 0;
    while i < n
        invariant
            n == v.len(),
            0 <= i <= n,
            out.deep_view() =~= v.deep_view().take(i as int),
        decreases n - i,
    {
        let ghost prev = out.deep_view();
        out.push(v[i].clone());
        proof {
            assert(out.deep_view() =~= prev.push(v@[i as int]@));
            assert(out.deep_view() =~= v.deep_view().take(i as int + 1));
        }
        i = i + 1;
    }
    assert(out.deep_view() =~= v.deep_view());
    out
}

pub fn clone_fields(v: &Vec<FieldDef>) -> (r: Vec<FieldDef>)
    ensures
        r.deep_view() == v.deep_view(),
{
    let mut out: Vec<FieldDef> = Vec::new();
    let n = v.len();
    let mut i: usize = 0;
    while i < n
        invariant
            n == v.len(),
            0 <= i <= n,
            out.deep_view() =~= v.deep_view().take(i as int),
        decreases n - i,
    {
        let ghost prev = out.deep_view();
        let f = FieldDef { name: v[i].name.clone(), ty: v[i].ty.clone() };
        out.push(f);
        proof {
            assert(out.deep_view() =~= prev.push(v@[i as int].deep_view()));
            assert(out.deep_view() =~= v.deep_view().take(i as int + 1));
        }
        i = i + 1;
    }
    assert(out.deep_view() =~= v.deep_view());
    out
}

pub fn clone_shape(s: &Shape) -> (r: Shape)
    ensures
        r.deep_view() == s.deep_view(),
{
    match s {
        Shape::Tuple(tys) => Shape::Tuple(clone_strings(tys)),
        Shape::Record(fields) => Shape::Record(clone_fields(fields)),
        Shape::Unit => Shape::Unit,
    }
}

// ------------------------------------------------------------------
// Joining token lists
// ------------------------------------------------------------------
/// The parts joined with the separator between consecutive parts.
pub open spec fn spec_join(parts: Seq<Seq<char>>, sep: Seq<char>) -> Seq<char>
    decreases parts.len(),
{
    if parts.len() == 0 {
        Seq::empty()
    } else if parts.len() == 1 {
        parts[0]
    } else {
        parts[0] + sep + spec_join(parts.drop_first(), sep)
    }
}

pub proof fn lemma_join_snoc(parts: Seq<Seq<char>>, sep: Seq<char>, x: Seq<char>)
    ensures
        spec_join(parts.push(x), sep) == if parts.len() == 0 {
            x
        } else {
            spec_join(parts, sep) + sep + x
        },
    decreases parts.len(),
{
    if parts.len() == 0 {
        assert(parts.push(x).len() == 1);
        assert(parts.push(x)[0] == x);
    } else if parts.len() == 1 {
        assert(parts.push(x)[0] == parts[0]);
        assert(parts.push(x).drop_first() =~= seq![x]);
        assert(spec_join(seq![x], sep) == x);
    } else {
        assert(parts.push(x)[0] == parts[0]);
        assert(parts.push(x).drop_first() =~= parts.drop_first().push(x));
        lemma_join_snoc(parts.drop_first(), sep, x);
        assert(parts.drop_first().len() > 0);
        assert((parts[0] + sep + (spec_join(parts.drop_first(), sep) + sep + x)) =~= ((parts[0]
            + sep + spec_join(parts.drop_first(), sep)) + sep + x));
    }
}

/// Joins the parts with the separator between consecutive parts.
pub fn join(parts: &Vec<String>, sep: &str) -> (r: String)
    ensures
        r@ == spec_join(parts.deep_view(), sep@),
{
    let mut out = String::new();
    let n = parts.len();
    let mut i: usize = 0;
    while i < n
        invariant
            n == parts.len(),
            0 <= i <= n,
            out@ == spec_join(parts.deep_view().take(i as int), sep@),
        decreases n - i,
    {
        if i > 0 {
            out.append(sep);
        }
        out.append(parts[i].as_str());
        proof {
            lemma_join_snoc(parts.deep_view().take(i as int), sep@, parts.deep_view()[i as int]);
            assert(parts.deep_view().take(i as int).push(parts.deep_view()[i as int])
                =~= parts.deep_view().take(i as int + 1));
        }
        i = i + 1;
    }
    proof {
        assert(parts.deep_view().take(n as int) =~= parts.deep_view());
    }
    out
}

// ------------------------------------------------------------------
// Identifier casing
// ------------------------------------------------------------------
/// An ASCII identifier character: a letter, a digit, or an underscore.
pub open spec fn is_ident_char(c: char) -> bool {
    ('a' <= c && c <= 'z') || ('A' <= c && c <= 'Z') || ('0' <= c && c <= '9') || c == '_'
}

pub open spec fn is_ident_chars(s: Seq<char>) -> bool {
    forall|i: int| 0 <= i < s.len() ==> is_ident_char(#[trigger] s[i])
}

pub open spec fn is_upper(c: char) -> bool {
    'A' <= c && c <= 'Z'
}

pub open spec fn lower_char(c: char) -> char {
    if is_upper(c) {
        ((c as u32) + 32) as char
    } else {
        c
    }
}

/// The tail of the snake-cased form of `s` from position `i` on: every
/// character is lowered, and an underscore is inserted before an uppercase
/// letter that does not begin the identifier.
pub open spec fn snake_from(s: Seq<char>, i: int) -> Seq<char>
    decreases s.len() - i,
{
    if i < 0 || i >= s.len() {
        Seq::empty()
    } else {
        let head = if is_upper(s[i]) && i > 0 {
            seq!['_', lower_char(s[i])]
        } else {
            seq![lower_char(s[i])]
        };
        head + snake_from(s, i + 1)
    }
}

/// The lowercase-snake-case form of an identifier.
pub open spec fn snake_of(s: Seq<char>) -> Seq<char> {
    snake_from(s, 0)
}

/// The lowercase letter matching one uppercase ASCII letter, as a borrowed
/// one-character string.
fn lower_lit(c: char) -> (r: &'static str)
    requires
        is_upper(c),
    ensures
        r@.len() == 1,
        r@[0] == lower_char(c),
{
    proof {
        reveal_strlit("a");
        reveal_strlit("b");
        reveal_strlit("c");
        reveal_strlit("d");
        reveal_strlit("e");
        reveal_strlit("f");
        reveal_strlit("g");
        reveal_strlit("h");
        reveal_strlit("i");
        reveal_strlit("j");
        reveal_strlit("k");
        reveal_strlit("l");
        reveal_strlit("m");
        reveal_strlit("n");
        reveal_strlit("o");
        reveal_strlit("p");
        reveal_strlit("q");
        reveal_strlit("r");
        reveal_strlit("s");
        reveal_strlit("t");
        reveal_strlit("u");
        reveal_strlit("v");
        reveal_strlit("w");
        reveal_strlit("x");
        reveal_strlit("y");
        reveal_strlit("z");
    }
    match c {
        'A' => "a",
        'B' => "b",
        'C' => "c",
        'D' => "d",
        'E' => "e",
        'F' => "f",
        'G' => "g",
        'H' => "h",
        'I' => "i",
        'J' => "j",
        'K' => "k",
        'L' => "l",
        'M' => "m",
        'N' => "n",
        'O' => "o",
        'P' => "p",
        'Q' => "q",
        'R' => "r",
        'S' => "s",
        'T' => "t",
        'U' => "u",
        'V' => "v",
        'W' => "w",
        'X' => "x",
        'Y' => "y",
        _ => "z",
    }
}

/// Snake-cases one ASCII identifier: `DaysSeconds` becomes `days_seconds`.
/// The table generators use this to synthesize field names from variant
/// identifiers.
pub fn snake_case(s: &str) -> (r: String)
    requires
        is_ident_chars(s@),
    ensures
        r@ == snake_of(s@),
{
    proof {
        reveal_strlit("_");
        assert(vstd::string::is_ascii(s));
    }
    let n = s.unicode_len();
    let mut out = String::new();
    let mut i: usize = 0;
    while i < n
        invariant
            n == s@.len(),
            is_ident_chars(s@),
            0 <= i <= n,
            out@ + snake_from(s@, i as int) == snake_of(s@),
        decreases n - i,
    {
        proof {
            reveal_strlit("_");
            assert(vstd::string::is_ascii(s));
        }
        let c = s.get_char(i);
        let cu = c as u32;
        let ghost out_prev: Seq<char> = out@;
        if cu >= 65 && cu <= 90 {
            assert(is_upper(c));
            if i > 0 {
                out.append("_");
            }
            let lo = lower_lit(c);
            out.append(lo);
            proof {
                if i > 0 {
                    assert(out@ =~= out_prev + seq!['_', lower_char(s@[i as int])]);
                } else {
                    assert(out@ =~= out_prev + seq![lower_char(s@[i as int])]);
                }
            }
        } else {
            assert(!is_upper(c));
            let piece = s.substring_ascii(i, i + 1);
            out.append(piece);
            proof {
                assert(lower_char(s@[i as int]) == s@[i as int]);
                assert(out@ =~= out_prev + seq![lower_char(s@[i as int])]);
            }
        }
        proof {
            assert(out@ + snake_from(s@, i + 1) =~= out_prev + snake_from(s@, i as int));
        }
        i = i + 1;
    }
    proof {
        assert(out@ =~= snake_of(s@));
    }
    out
}

} // verus!
