//! The attributes by which a type declares its options or arguments, and the
//! rules that they obey.
//!
//! A variant or a field is annotated with attributes such as
//! `description = "..."`, `short = 'x'`, `informative` and
//! `variable_argument`. This module reads them from a plain picture of the
//! source's syntax and checks them; it generates no code.

use vstd::prelude::*;
use crate::text::same_text;

verus! {

/// A literal, as far as the attributes go.
#[derive(Debug, PartialEq, Eq)]
pub enum Lit {
    Str(String),
    Char(char),
    Other,
}

/// The mathematical value of a [`Lit`].
pub enum LitView {
    Str(Seq<char>),
    Char(char),
    Other,
}

impl View for Lit {
    type V = LitView;

    open spec fn view(&self) -> LitView {
        match self {
            Lit::Str(text) => LitView::Str(text@),
            Lit::Char(c) => LitView::Char(*c),
            Lit::Other => LitView::Other,
        }
    }
}

/// What a literal holds, by kind.
pub trait ExtLit {
    /// The character of a character literal.
    fn char(&self) -> Option<char>;

    /// The text of a string literal.
    fn str(&self) -> Option<String>;
}

impl ExtLit for Lit {
    fn char(&self) -> (c: Option<char>)
        ensures
            c == (match self@ {
                LitView::Char(c) => Some(c),
                _ => None,
            }),
    {
        match self {
            Lit::Char(c) => Some(*c),
            _ => None,
        }
    }

    fn str(&self) -> (text: Option<String>)
        ensures
            match self@ {
                LitView::Str(value) => text is Some && text->0@ == value,
                _ => text is None,
            },
    {
        match self {
            Lit::Str(text) => Some(text.clone()),
            _ => None,
        }
    }
}

/// One item of an attribute's list, named by an identifier: the bare name,
/// the name with a list of its own, or the name with a value.
#[derive(Debug, PartialEq, Eq)]
pub enum Meta {
    Path(String),
    List(String),
    NameValue(String, Lit),
}

/// The mathematical value of a [`Meta`].
pub enum MetaView {
    Path(Seq<char>),
    List(Seq<char>),
    NameValue(Seq<char>, LitView),
}

impl View for Meta {
    type V = MetaView;

    open spec fn view(&self) -> MetaView {
        match self {
            Meta::Path(name) => MetaView::Path(name@),
            Meta::List(name) => MetaView::List(name@),
            Meta::NameValue(name, lit) => MetaView::NameValue(name@, lit@),
        }
    }
}

impl MetaView {
    /// The identifier that the item is named by.
    pub open spec fn name(self) -> Seq<char> {
        match self {
            MetaView::Path(name) => name,
            MetaView::List(name) => name,
            MetaView::NameValue(name, _) => name,
        }
    }
}

impl Meta {
    /// The identifier that the item is named by.
    pub fn name(&self) -> (name: &str)
        ensures
            name@ == self@.name(),
    {
        match self {
            Meta::Path(name) => name.as_str(),
            Meta::List(name) => name.as_str(),
            Meta::NameValue(name, _) => name.as_str(),
        }
    }
}

/// What one item of an attribute's list says of a variant or a field.
#[derive(Debug, PartialEq, Eq)]
pub enum Attribute {
    Description(String),
    Variadic,
    Short(char),
    Informative,
}

/// The mathematical value of an [`Attribute`].
pub enum AttributeView {
    Description(Seq<char>),
    Variadic,
    Short(char),
    Informative,
}

impl View for Attribute {
    type V = AttributeView;

    open spec fn view(&self) -> AttributeView {
        match self {
            Attribute::Description(text) => AttributeView::Description(text@),
            Attribute::Variadic => AttributeView::Variadic,
            Attribute::Short(c) => AttributeView::Short(*c),
            Attribute::Informative => AttributeView::Informative,
        }
    }
}

/// What an item says, if it is well formed: `description` takes a string,
/// `short` a character, `variable_argument` and `informative` stand bare.
/// Any other name, and any other form under these names, says nothing.
pub open spec fn attribute_of(meta: MetaView) -> Option<AttributeView> {
    if meta.name() == "description"@ {
        match meta {
            MetaView::NameValue(_, LitView::Str(text)) => Some(AttributeView::Description(text)),
            _ => None,
        }
    } else if meta.name() == "variable_argument"@ {
        match meta {
            MetaView::Path(_) => Some(AttributeView::Variadic),
            _ => None,
        }
    } else if meta.name() == "short"@ {
        match meta {
            MetaView::NameValue(_, LitView::Char(c)) => Some(AttributeView::Short(c)),
            _ => None,
        }
    } else if meta.name() == "informative"@ {
        match meta {
            MetaView::Path(_) => Some(AttributeView::Informative),
            _ => None,
        }
    } else {
        None
    }
}

impl Attribute {
    /// Reads one item of an attribute's list.
    pub fn try_from(meta: &Meta) -> (read: Option<Attribute>)
        ensures
            match read {
                Some(attribute) => attribute_of(meta@) == Some(attribute@),
                None => attribute_of(meta@) is None,
            },
    {
        let name = meta.name();
        if same_text(name, "description") {
            match meta {
                Meta::NameValue(_, Lit::Str(text)) => Some(Attribute::Description(text.clone())),
                _ => None,
            }
        } else if same_text(name, "variable_argument") {
            match meta {
                Meta::Path(_) => Some(Attribute::Variadic),
                _ => None,
            }
        } else if same_text(name, "short") {
            match meta {
                Meta::NameValue(_, Lit::Char(c)) => Some(Attribute::Short(*c)),
                _ => None,
            }
        } else if same_text(name, "informative") {
            match meta {
                Meta::Path(_) => Some(Attribute::Informative),
                _ => None,
            }
        } else {
            None
        }
    }
}

/// Why a declaration of options or arguments is refused.
#[derive(Debug, Clone, Copy, PartialEq, Eq, Structural)]
pub enum SchemaError {
    /// An attribute's list holds a literal where an item is due.
    NotMeta,
    /// An item says nothing: its name is unknown, or its form is not the one
    /// that goes with its name.
    UnknownAttribute,
    /// A second `description`.
    DuplicateDescription,
    /// A second `short`.
    DuplicateShort,
    /// A second `informative`.
    DuplicateInformative,
    /// An attribute that does not go with what it stands on, as `short` on
    /// an argument.
    InvalidArgument,
    /// A field behind the one marked `variable_argument`.
    VariadicNotLast,
}

/// The text that tells a user of the fault.
pub open spec fn fault_text(fault: SchemaError) -> Seq<char> {
    match fault {
        SchemaError::NotMeta => "Invalid attribute is given: not syn::NestedMeta::Meta"@,
        SchemaError::UnknownAttribute => "Invalid attribute is given"@,
        SchemaError::DuplicateDescription => "description attributes are duplicated"@,
        SchemaError::DuplicateShort => "short attributes are duplicated"@,
        SchemaError::DuplicateInformative => "is_informative attributes are duplicated"@,
        SchemaError::InvalidArgument => "Invalid argument is given"@,
        SchemaError::VariadicNotLast =>
            "The \"variable_argument\" attribute is allowed only for the last field"@,
    }
}

impl SchemaError {
    /// The text that tells a user of the fault.
    pub fn to_string(&self) -> (text: String)
        ensures
            text@ == fault_text(*self),
    {
        match self {
            SchemaError::NotMeta => "Invalid attribute is given: not syn::NestedMeta::Meta"
                .to_owned(),
            SchemaError::UnknownAttribute => "Invalid attribute is given".to_owned(),
            SchemaError::DuplicateDescription => "description attributes are duplicated".to_owned(),
            SchemaError::DuplicateShort => "short attributes are duplicated".to_owned(),
            SchemaError::DuplicateInformative => "is_informative attributes are duplicated"
                .to_owned(),
            SchemaError::InvalidArgument => "Invalid argument is given".to_owned(),
            SchemaError::VariadicNotLast =>
                "The \"variable_argument\" attribute is allowed only for the last field".to_owned(),
        }
    }
}

/// One element of an attribute's list: an item or a literal.
#[derive(Debug, PartialEq, Eq)]
pub enum NestedMeta {
    Meta(Meta),
    Lit(Lit),
}

/// The mathematical value of a [`NestedMeta`].
pub enum NestedView {
    Meta(MetaView),
    Lit(LitView),
}

impl View for NestedMeta {
    type V = NestedView;

    open spec fn view(&self) -> NestedView {
        match self {
            NestedMeta::Meta(meta) => NestedView::Meta(meta@),
            NestedMeta::Lit(lit) => NestedView::Lit(lit@),
        }
    }
}

/// One attribute of a variant or a field, as far as it can be read: a list,
/// such as `entrance(short = 'v')`, or anything else.
#[derive(Debug, PartialEq, Eq)]
pub enum Annotation {
    List(Vec<NestedMeta>),
    Other,
}

/// The elements of the attributes that are lists, in the order in which they
/// are written. An attribute that is no list has none.
pub open spec fn elements(annotations: Seq<Annotation>) -> Seq<NestedView>
    decreases annotations.len(),
{
    if annotations.len() == 0 {
        Seq::empty()
    } else {
        elements(annotations.drop_last()) + (match annotations.last() {
            Annotation::List(list) => list@.map_values(|nested: NestedMeta| nested@),
            Annotation::Other => Seq::empty(),
        })
    }
}

/// What one element says, or why it is refused.
pub open spec fn element_attribute(nested: NestedView) -> Result<AttributeView, SchemaError> {
    match nested {
        NestedView::Lit(_) => Err(SchemaError::NotMeta),
        NestedView::Meta(meta) => match attribute_of(meta) {
            Some(attribute) => Ok(attribute),
            None => Err(SchemaError::UnknownAttribute),
        },
    }
}

/// What a run of elements says, one attribute for each, in order; or why the
/// first element that is refused is.
pub open spec fn attributes_of(nested: Seq<NestedView>) -> Result<Seq<AttributeView>, SchemaError>
    decreases nested.len(),
{
    if nested.len() == 0 {
        Ok(Seq::empty())
    } else {
        match attributes_of(nested.drop_last()) {
            Err(fault) => Err(fault),
            Ok(attributes) => match element_attribute(nested.last()) {
                Ok(attribute) => Ok(attributes.push(attribute)),
                Err(fault) => Err(fault),
            },
        }
    }
}

/// The values of a list of attributes, in the list's order.
pub open spec fn attribute_views(attributes: Seq<Attribute>) -> Seq<AttributeView> {
    attributes.map_values(|attribute: Attribute| attribute@)
}

/// Reading a run of elements goes on from where reading its front ended.
pub proof fn attributes_of_append(front: Seq<NestedView>, back: Seq<NestedView>)
    ensures
        attributes_of(front + back) == match attributes_of(front) {
            Err(fault) => Err::<Seq<AttributeView>, SchemaError>(fault),
            Ok(attributes) => match attributes_of(back) {
                Err(fault) => Err(fault),
                Ok(more) => Ok(attributes + more),
            },
        },
    decreases back.len(),
{
    if back.len() > 0 {
        attributes_of_append(front, back.drop_last());
        assert((front + back).drop_last() =~= front + back.drop_last());
    }
}

/// The elements of a run of attributes are those of its front followed by
/// those of the rest.
pub proof fn elements_split(annotations: Seq<Annotation>, at: int)
    requires
        0 <= at <= annotations.len(),
    ensures
        elements(annotations) == elements(annotations.take(at)) + elements(annotations.skip(at)),
    decreases annotations.len(),
{
    if at == annotations.len() {
        assert(annotations.take(at) =~= annotations);
    } else {
        let front = annotations.drop_last();
        elements_split(front, at);
        assert(front.take(at) =~= annotations.take(at));
        assert(front.skip(at) =~= annotations.skip(at).drop_last());
    }
}

/// An element that is refused has every run of attributes refused that it
/// stands in, whatever stands behind it.
proof fn fault_decides(
    annotations: Seq<Annotation>,
    upto: int,
    front: Seq<NestedView>,
    list: Seq<NestedView>,
    cut: int,
)
    requires
        0 <= upto <= annotations.len(),
        0 <= cut <= list.len(),
        elements(annotations.take(upto)) == front + list,
        attributes_of(front + list.take(cut)) is Err,
    ensures
        attributes_of(elements(annotations)) == attributes_of(front + list.take(cut)),
{
    let read = front + list.take(cut);
    let rest = list.skip(cut) + elements(annotations.skip(upto));
    elements_split(annotations, upto);
    assert(elements(annotations) =~= read + rest);
    attributes_of_append(read, rest);
}

/// Reads the attributes of a variant or a field.
///
/// Every element of every attribute that is a list is read, in order; the
/// attributes that are no lists are passed over. The first element that is a
/// literal, or an item that says nothing, has the whole refused.
pub fn extract_attributes(attrs: &[Annotation]) -> (read: Result<Vec<Attribute>, SchemaError>)
    ensures
        match read {
            Ok(attributes) => attributes_of(elements(attrs@)) == Ok::<
                Seq<AttributeView>,
                SchemaError,
            >(attribute_views(attributes@)),
            Err(fault) => attributes_of(elements(attrs@)) == Err::<Seq<AttributeView>, SchemaError>(
                fault,
            ),
        },
{
    let mut attributes: Vec<Attribute> = Vec::new();
    let mut i: usize = 0;
    assert(attribute_views(attributes@) =~= Seq::empty());
    while i < attrs.len()
        invariant
            i <= attrs@.len(),
            attributes_of(elements(attrs@.take(i as int))) == Ok::<Seq<AttributeView>, SchemaError>(
                attribute_views(attributes@),
            ),
        decreases attrs@.len() - i,
    {
        let ghost front = elements(attrs@.take(i as int));
        assert(attrs@.take(i + 1).drop_last() =~= attrs@.take(i as int));
        match &attrs[i] {
            Annotation::List(list) => {
                let ghost all = list@.map_values(|nested: NestedMeta| nested@);
                let mut j: usize = 0;
                while j < list.len()
                    invariant
                        j <= list@.len(),
                        i < attrs@.len(),
                        all == list@.map_values(|nested: NestedMeta| nested@),
                        elements(attrs@.take(i + 1)) == front + all,
                        attributes_of(front + all.take(j as int)) == Ok::<
                            Seq<AttributeView>,
                            SchemaError,
                        >(attribute_views(attributes@)),
                    decreases list@.len() - j,
                {
                    let ghost before = attribute_views(attributes@);
                    assert((front + all.take(j + 1)).drop_last() =~= front + all.take(j as int));
                    match &list[j] {
                        NestedMeta::Lit(_) => {
                            proof {
                                fault_decides(attrs@, i + 1, front, all, j + 1);
                            }
                            return Err(SchemaError::NotMeta);
                        },
                        NestedMeta::Meta(meta) => match Attribute::try_from(meta) {
                            Some(attribute) => {
                                attributes.push(attribute);
                                assert(attribute_views(attributes@) =~= before.push(attribute@));
                            },
                            None => {
                                proof {
                                    fault_decides(attrs@, i + 1, front, all, j + 1);
                                }
                                return Err(SchemaError::UnknownAttribute);
                            },
                        },
                    }
                    j = j + 1;
                }
                assert(all.take(list@.len() as int) =~= all);
            },
            Annotation::Other => {},
        }
        i = i + 1;
    }
    assert(attrs@.take(attrs@.len() as int) =~= attrs@);
    Ok(attributes)
}

/// What the attributes of a variant have said so far.
pub struct OptionMarks {
    pub short: Option<char>,
    pub description: Option<Seq<char>>,
    pub informative: bool,
}

/// Takes one more attribute of a variant: each of `description`, `short`
/// and `informative` once at most, and none that goes with arguments.
pub open spec fn option_step(marks: OptionMarks, attribute: AttributeView) -> Result<
    OptionMarks,
    SchemaError,
> {
    match attribute {
        AttributeView::Description(text) => if marks.description is Some {
            Err(SchemaError::DuplicateDescription)
        } else {
            Ok(OptionMarks { description: Some(text), ..marks })
        },
        AttributeView::Short(c) => if marks.short is Some {
            Err(SchemaError::DuplicateShort)
        } else {
            Ok(OptionMarks { short: Some(c), ..marks })
        },
        AttributeView::Informative => if marks.informative {
            Err(SchemaError::DuplicateInformative)
        } else {
            Ok(OptionMarks { informative: true, ..marks })
        },
        AttributeView::Variadic => Err(SchemaError::InvalidArgument),
    }
}

/// What the attributes of a variant say, taken in order; or the fault of the
/// first that cannot be taken.
pub open spec fn option_marks(attributes: Seq<AttributeView>) -> Result<OptionMarks, SchemaError>
    decreases attributes.len(),
{
    if attributes.len() == 0 {
        Ok(OptionMarks { short: None, description: None, informative: false })
    } else {
        match option_marks(attributes.drop_last()) {
            Err(fault) => Err(fault),
            Ok(marks) => option_step(marks, attributes.last()),
        }
    }
}

/// What the attributes of one variant say of its option.
#[derive(Debug, PartialEq, Eq)]
pub struct OptionAttribute {
    pub short: Option<char>,
    pub description: String,
    pub is_informative: bool,
}

/// The mathematical value of an [`OptionAttribute`].
pub struct OptionAttributeView {
    pub short: Option<char>,
    pub description: Seq<char>,
    pub is_informative: bool,
}

impl View for OptionAttribute {
    type V = OptionAttributeView;

    open spec fn view(&self) -> OptionAttributeView {
        OptionAttributeView {
            short: self.short,
            description: self.description@,
            is_informative: self.is_informative,
        }
    }
}

/// The description that was given, or the empty one.
pub open spec fn description_or_empty(description: Option<Seq<char>>) -> Seq<char> {
    match description {
        Some(text) => text,
        None => Seq::empty(),
    }
}

/// What the attributes of a variant declare: the short form, the
/// description (empty where none is given) and whether the option is
/// informative; or why they are refused.
pub open spec fn option_attrs(annotations: Seq<Annotation>) -> Result<
    OptionAttributeView,
    SchemaError,
> {
    match attributes_of(elements(annotations)) {
        Err(fault) => Err(fault),
        Ok(attributes) => match option_marks(attributes) {
            Err(fault) => Err(fault),
            Ok(marks) => Ok(
                OptionAttributeView {
                    short: marks.short,
                    description: description_or_empty(marks.description),
                    is_informative: marks.informative,
                },
            ),
        },
    }
}

/// The value of an optional text.
pub open spec fn text_view(text: Option<String>) -> Option<Seq<char>> {
    match text {
        Some(text) => Some(text@),
        None => None,
    }
}

/// A fault among the first attributes is the fault of them all.
pub proof fn option_fault_stays(attributes: Seq<AttributeView>, upto: int)
    requires
        0 <= upto <= attributes.len(),
        option_marks(attributes.take(upto)) is Err,
    ensures
        option_marks(attributes) == option_marks(attributes.take(upto)),
    decreases attributes.len() - upto,
{
    if upto < attributes.len() {
        assert(attributes.take(upto + 1).drop_last() =~= attributes.take(upto));
        option_fault_stays(attributes, upto + 1);
    } else {
        assert(attributes.take(upto) =~= attributes);
    }
}

/// Reads what the attributes of a variant declare of its option.
pub fn extract_options_attrs(attrs: &[Annotation]) -> (read: Result<OptionAttribute, SchemaError>)
    ensures
        match read {
            Ok(declared) => option_attrs(attrs@) == Ok::<OptionAttributeView, SchemaError>(
                declared@,
            ),
            Err(fault) => option_attrs(attrs@) == Err::<OptionAttributeView, SchemaError>(fault),
        },
{
    let attributes = match extract_attributes(attrs) {
        Ok(attributes) => attributes,
        Err(fault) => {
            return Err(fault);
        },
    };
    let ghost all = attribute_views(attributes@);
    let mut short: Option<char> = None;
    let mut description: Option<String> = None;
    let mut is_informative = false;
    for attribute in iter: attributes
        invariant
            iter.seq() == attributes@,
            all == attribute_views(attributes@),
            attributes_of(elements(attrs@)) == Ok::<Seq<AttributeView>, SchemaError>(all),
            option_marks(all.take(iter.index())) == Ok::<OptionMarks, SchemaError>(
                OptionMarks {
                    short,
                    description: text_view(description),
                    informative: is_informative,
                },
            ),
    {
        let ghost at = iter.index();
        assert(all.take(at + 1).drop_last() =~= all.take(at));
        let mut fault: Option<SchemaError> = None;
        match attribute {
            Attribute::Description(text) => {
                if description.is_some() {
                    fault = Some(SchemaError::DuplicateDescription);
                } else {
                    description = Some(text);
                }
            },
            Attribute::Short(c) => {
                if short.is_some() {
                    fault = Some(SchemaError::DuplicateShort);
                } else {
                    short = Some(c);
                }
            },
            Attribute::Informative => {
                if is_informative {
                    fault = Some(SchemaError::DuplicateInformative);
                } else {
                    is_informative = true;
                }
            },
            Attribute::Variadic => {
                fault = Some(SchemaError::InvalidArgument);
            },
        }
        if let Some(fault) = fault {
            proof {
                option_fault_stays(all, at + 1);
            }
            return Err(fault);
        }
    }
    assert(all.take(attributes@.len() as int) =~= all);
    let description = match description {
        Some(text) => text,
        None => String::new(),
    };
    Ok(OptionAttribute { short, description, is_informative })
}

/// One option of a command, as its variant declares it.
#[derive(Debug, PartialEq, Eq)]
pub struct OptionVariant {
    pub ident: String,
    pub short: Option<char>,
    pub description: String,
    pub is_informative: bool,
}

impl OptionVariant {
    /// The option that a variant of the given name and attributes declares.
    pub fn parse(ident: String, attrs: &[Annotation]) -> (read: Result<OptionVariant, SchemaError>)
        ensures
            match read {
                Ok(variant) => {
                    &&& variant.ident == ident
                    &&& option_attrs(attrs@) == Ok::<OptionAttributeView, SchemaError>(
                        OptionAttributeView {
                            short: variant.short,
                            description: variant.description@,
                            is_informative: variant.is_informative,
                        },
                    )
                },
                Err(fault) => option_attrs(attrs@) == Err::<OptionAttributeView, SchemaError>(
                    fault,
                ),
            },
    {
        match extract_options_attrs(attrs) {
            Ok(declared) => Ok(
                OptionVariant {
                    ident,
                    short: declared.short,
                    description: declared.description,
                    is_informative: declared.is_informative,
                },
            ),
            Err(fault) => Err(fault),
        }
    }
}

/// The lower-case form of a text, as `str::to_lowercase` gives it.
pub uninterp spec fn lowercase(text: Seq<char>) -> Seq<char>;

/// Puts a text in lower case with `str::to_lowercase`.
///
/// Not proved: the contract names what `str::to_lowercase` returns, which
/// the standard library defines by the Unicode tables of lower-case forms.
#[verifier::external_body]
fn to_lowercase(text: &str) -> (lower: String)
    ensures
        lower@ == lowercase(text@),
{
    text.to_lowercase()
}

/// The long name under which a variant's option is given on the command
/// line: the variant's name in lower case.
pub fn get_long_option(ident: &str) -> (long: String)
    ensures
        long@ == lowercase(ident@),
{
    to_lowercase(ident)
}

/// What the attributes of a field have said so far.
pub struct ArgumentMarks {
    pub description: Option<Seq<char>>,
    pub variadic: bool,
}

/// Takes one more attribute of a field: `description` once at most,
/// `variable_argument` as often as it comes, and none that goes with
/// options.
pub open spec fn argument_step(marks: ArgumentMarks, attribute: AttributeView) -> Result<
    ArgumentMarks,
    SchemaError,
> {
    match attribute {
        AttributeView::Description(text) => if marks.description is Some {
            Err(SchemaError::DuplicateDescription)
        } else {
            Ok(ArgumentMarks { description: Some(text), ..marks })
        },
        AttributeView::Variadic => Ok(ArgumentMarks { variadic: true, ..marks }),
        _ => Err(SchemaError::InvalidArgument),
    }
}

/// What the attributes of a field say, taken in order; or the fault of the
/// first that cannot be taken.
pub open spec fn argument_marks(attributes: Seq<AttributeView>) -> Result<
    ArgumentMarks,
    SchemaError,
>
    decreases attributes.len(),
{
    if attributes.len() == 0 {
        Ok(ArgumentMarks { description: None, variadic: false })
    } else {
        match argument_marks(attributes.drop_last()) {
            Err(fault) => Err(fault),
            Ok(marks) => argument_step(marks, attributes.last()),
        }
    }
}

/// What the attributes of a field declare: its description, where one is
/// given, and whether the field is the variadic one; or why they are
/// refused.
pub open spec fn argument_attrs(annotations: Seq<Annotation>) -> Result<
    ArgumentMarks,
    SchemaError,
> {
    match attributes_of(elements(annotations)) {
        Err(fault) => Err(fault),
        Ok(attributes) => argument_marks(attributes),
    }
}

/// A fault among the first attributes is the fault of them all.
pub proof fn argument_fault_stays(attributes: Seq<AttributeView>, upto: int)
    requires
        0 <= upto <= attributes.len(),
        argument_marks(attributes.take(upto)) is Err,
    ensures
        argument_marks(attributes) == argument_marks(attributes.take(upto)),
    decreases attributes.len() - upto,
{
    if upto < attributes.len() {
        assert(attributes.take(upto + 1).drop_last() =~= attributes.take(upto));
        argument_fault_stays(attributes, upto + 1);
    } else {
        assert(attributes.take(upto) =~= attributes);
    }
}

/// Reads what the attributes of a field declare of its argument: the
/// description, where one is given, and whether the field is variadic.
pub fn extract_arguments_attrs(attrs: &[Annotation]) -> (read: Result<
    (Option<String>, bool),
    SchemaError,
>)
    ensures
        match read {
            Ok((description, variadic)) => argument_attrs(attrs@) == Ok::<
                ArgumentMarks,
                SchemaError,
            >(ArgumentMarks { description: text_view(description), variadic }),
            Err(fault) => argument_attrs(attrs@) == Err::<ArgumentMarks, SchemaError>(fault),
        },
{
    let attributes = match extract_attributes(attrs) {
        Ok(attributes) => attributes,
        Err(fault) => {
            return Err(fault);
        },
    };
    let ghost all = attribute_views(attributes@);
    let mut description: Option<String> = None;
    let mut variadic = false;
    for attribute in iter: attributes
        invariant
            iter.seq() == attributes@,
            all == attribute_views(attributes@),
            attributes_of(elements(attrs@)) == Ok::<Seq<AttributeView>, SchemaError>(all),
            argument_marks(all.take(iter.index())) == Ok::<ArgumentMarks, SchemaError>(
                ArgumentMarks { description: text_view(description), variadic },
            ),
    {
        let ghost at = iter.index();
        assert(all.take(at + 1).drop_last() =~= all.take(at));
        let mut fault: Option<SchemaError> = None;
        match attribute {
            Attribute::Description(text) => {
                if description.is_some() {
                    fault = Some(SchemaError::DuplicateDescription);
                } else {
                    description = Some(text);
                }
            },
            Attribute::Variadic => {
                variadic = true;
            },
            _ => {
                fault = Some(SchemaError::InvalidArgument);
            },
        }
        if let Some(fault) = fault {
            proof {
                argument_fault_stays(all, at + 1);
            }
            return Err(fault);
        }
    }
    assert(all.take(attributes@.len() as int) =~= all);
    Ok((description, variadic))
}

/// A field of a struct of arguments, as it is written: its name and its
/// attributes.
#[derive(Debug, PartialEq, Eq)]
pub struct FieldSource {
    pub ident: String,
    pub attrs: Vec<Annotation>,
}

/// One argument of a command, as its field declares it.
#[derive(Debug, PartialEq, Eq)]
pub struct Field {
    pub ident: String,
    pub description: String,
}

/// The mathematical value of a [`Field`].
pub struct FieldView {
    pub ident: Seq<char>,
    pub description: Seq<char>,
}

impl View for Field {
    type V = FieldView;

    open spec fn view(&self) -> FieldView {
        FieldView { ident: self.ident@, description: self.description@ }
    }
}

/// The values of a list of fields, in the list's order.
pub open spec fn field_views(fields: Seq<Field>) -> Seq<FieldView> {
    fields.map_values(|field: Field| field@)
}

/// The value of an optional field.
pub open spec fn field_option_view(field: Option<Field>) -> Option<FieldView> {
    match field {
        Some(field) => Some(field@),
        None => None,
    }
}

/// The arguments that a struct declares: the fixed ones, in the order of
/// their fields, and the variadic one, where the last field is marked so.
#[derive(Debug, PartialEq, Eq)]
pub struct ArgumentFields {
    pub arguments: Vec<Field>,
    pub variable_argument: Option<Field>,
}

/// The fields that were read so far, and whether the last of them is marked
/// as variadic.
pub struct FieldsRead {
    pub fields: Seq<FieldView>,
    pub variadic: bool,
}

/// Reads one more field: none may follow a variadic one.
pub open spec fn field_step(read: FieldsRead, field: FieldSource) -> Result<FieldsRead, SchemaError> {
    if read.variadic {
        Err(SchemaError::VariadicNotLast)
    } else {
        match argument_attrs(field.attrs@) {
            Err(fault) => Err(fault),
            Ok(marks) => Ok(
                FieldsRead {
                    fields: read.fields.push(
                        FieldView {
                            ident: field.ident@,
                            description: description_or_empty(marks.description),
                        },
                    ),
                    variadic: marks.variadic,
                },
            ),
        }
    }
}

/// What the fields say, read in order; or the fault of the first that
/// cannot be read.
pub open spec fn fields_read(fields: Seq<FieldSource>) -> Result<FieldsRead, SchemaError>
    decreases fields.len(),
{
    if fields.len() == 0 {
        Ok(FieldsRead { fields: Seq::empty(), variadic: false })
    } else {
        match fields_read(fields.drop_last()) {
            Err(fault) => Err(fault),
            Ok(read) => field_step(read, fields.last()),
        }
    }
}

/// A fault among the first fields is the fault of them all.
pub proof fn field_fault_stays(fields: Seq<FieldSource>, upto: int)
    requires
        0 <= upto <= fields.len(),
        fields_read(fields.take(upto)) is Err,
    ensures
        fields_read(fields) == fields_read(fields.take(upto)),
    decreases fields.len() - upto,
{
    if upto < fields.len() {
        assert(fields.take(upto + 1).drop_last() =~= fields.take(upto));
        field_fault_stays(fields, upto + 1);
    } else {
        assert(fields.take(upto) =~= fields);
    }
}

/// Reading keeps every field, in its place and under its name; and where the
/// last one is marked as variadic, there is one.
pub proof fn fields_read_keeps_names(fields: Seq<FieldSource>)
    requires
        fields_read(fields) is Ok,
    ensures
        fields_read(fields)->Ok_0.fields.len() == fields.len(),
        forall|i: int|
            0 <= i < fields.len() ==> (#[trigger] fields_read(fields)->Ok_0.fields[i]).ident
                == fields[i].ident@,
        fields_read(fields)->Ok_0.variadic ==> fields.len() > 0,
    decreases fields.len(),
{
    if fields.len() > 0 {
        fields_read_keeps_names(fields.drop_last());
    }
}

impl ArgumentFields {
    /// Reads the arguments that the fields of a struct declare.
    ///
    /// Every field is an argument, in the order of the fields. A field marked
    /// `variable_argument` is the variadic one and must be the last: a field
    /// behind it has the whole refused, as has the first fault in a field's
    /// attributes.
    pub fn parse(fields: Vec<FieldSource>) -> (read: Result<ArgumentFields, SchemaError>)
        ensures
            match read {
                Ok(declared) => {
                    &&& fields_read(fields@) is Ok
                    &&& ({
                        let all = fields_read(fields@)->Ok_0;
                        if all.variadic {
                            &&& field_views(declared.arguments@) == all.fields.drop_last()
                            &&& field_option_view(declared.variable_argument) == Some(
                                all.fields.last(),
                            )
                        } else {
                            &&& field_views(declared.arguments@) == all.fields
                            &&& declared.variable_argument is None
                        }
                    })
                },
                Err(fault) => fields_read(fields@) == Err::<FieldsRead, SchemaError>(fault),
            },
    {
        let mut arguments: Vec<Field> = Vec::new();
        let mut prev_variadic = false;
        assert(field_views(arguments@) =~= Seq::empty());
        for field in iter: fields
            invariant
                iter.seq() == fields@,
                fields_read(fields@.take(iter.index())) == Ok::<FieldsRead, SchemaError>(
                    FieldsRead { fields: field_views(arguments@), variadic: prev_variadic },
                ),
        {
            let ghost at = iter.index();
            let ghost before = field_views(arguments@);
            assert(fields@.take(at + 1).drop_last() =~= fields@.take(at));
            if prev_variadic {
                proof {
                    field_fault_stays(fields@, at + 1);
                }
                return Err(SchemaError::VariadicNotLast);
            }
            match extract_arguments_attrs(field.attrs.as_slice()) {
                Ok((description, variadic)) => {
                    prev_variadic = variadic;
                    let description = match description {
                        Some(text) => text,
                        None => String::new(),
                    };
                    arguments.push(Field { ident: field.ident, description });
                    assert(field_views(arguments@) =~= before.push(arguments@.last()@));
                },
                Err(fault) => {
                    proof {
                        field_fault_stays(fields@, at + 1);
                    }
                    return Err(fault);
                },
            }
        }
        assert(fields@.take(fields@.len() as int) =~= fields@);
        let variable_argument = if prev_variadic {
            let last = arguments.pop();
            last
        } else {
            None
        };
        Ok(ArgumentFields { arguments, variable_argument })
    }
}

} // verus!
