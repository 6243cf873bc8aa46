use crate::config::option_string_view;
use vstd::prelude::*;
use vstd::string::StringExecFns;

verus! {

/// What `str::to_uppercase` gives for `s`.
pub uninterp spec fn uppercase(s: Seq<char>) -> Seq<char>;

/// A character upper-cased the ASCII way: `a`..`z` become `A`..`Z`, every
/// other character is kept.
pub open spec fn ascii_upper_char(c: char) -> char {
    if 'a' <= c && c <= 'z' {
        ((c as u32) - 32) as char
    } else {
        c
    }
}

/// A string upper-cased the ASCII way.
pub open spec fn ascii_uppercase(s: Seq<char>) -> Seq<char> {
    s.map_values(|c: char| ascii_upper_char(c))
}

/// The name of the status constant for the argument name `name`: `name`
/// upper-cased, the ASCII way where it is all ASCII.
pub open spec fn status_constant_name(name: Seq<char>) -> Seq<char> {
    if vstd::utf8::is_ascii_chars(name) {
        ascii_uppercase(name)
    } else {
        uppercase(name)
    }
}

/// `str::to_uppercase`: the uppercase equivalent of `s` by Unicode's
/// definition. The result is named [`uppercase`]. Of an all-ASCII string
/// the contract also states what std's documentation shows (`"hello"`
/// becomes `"HELLO"`): each ASCII letter is upper-cased and every other
/// character is kept; nothing more is stated of other strings.
#[verifier::external_body]
fn to_uppercase(s: &str) -> (upper: String)
    ensures
        upper@ == uppercase(s@),
        vstd::utf8::is_ascii_chars(s@) ==> upper@ == ascii_uppercase(s@),
{
    s.to_uppercase()
}

/// The value of an argument of the page attribute.
pub enum ArgumentValue {
    /// A string literal, with its value.
    Str(String),
    /// Any other expression.
    Other,
}

/// One argument of the page attribute, as far as its parsing looks at it.
pub enum AttributeArgument {
    /// `name = value`; `name` is `None` where the path is not a single identifier.
    NameValue { name: Option<String>, value: ArgumentValue },
    /// Any other argument; it is ignored.
    Other,
}

pub enum ArgumentValueView {
    Str(Seq<char>),
    Other,
}

pub enum AttributeArgumentView {
    NameValue { name: Option<Seq<char>>, value: ArgumentValueView },
    Other,
}

impl View for ArgumentValue {
    type V = ArgumentValueView;

    open spec fn view(&self) -> ArgumentValueView {
        match self {
            ArgumentValue::Str(s) => ArgumentValueView::Str(s@),
            ArgumentValue::Other => ArgumentValueView::Other,
        }
    }
}

impl View for AttributeArgument {
    type V = AttributeArgumentView;

    open spec fn view(&self) -> AttributeArgumentView {
        match self {
            AttributeArgument::NameValue { name, value } => AttributeArgumentView::NameValue {
                name: option_string_view(*name),
                value: value@,
            },
            AttributeArgument::Other => AttributeArgumentView::Other,
        }
    }
}

/// The documents that a page names: `file = ".."` gives its default
/// document; every other `status_name = ".."` gives the document for the
/// status whose constant is the upper-cased name.
pub struct Arguments {
    pub default_file: Option<String>,
    pub custom_files: Vec<(String, String)>,
}

pub struct ArgumentsView {
    pub default_file: Option<Seq<char>>,
    pub custom_files: Seq<(Seq<char>, Seq<char>)>,
}

impl View for Arguments {
    type V = ArgumentsView;

    open spec fn view(&self) -> ArgumentsView {
        ArgumentsView {
            default_file: option_string_view(self.default_file),
            custom_files: self.custom_files@.map_values(
                |entry: (String, String)| (entry.0@, entry.1@),
            ),
        }
    }
}

/// Why the arguments of the page attribute were refused.
#[derive(Debug, Clone, Copy, PartialEq, Eq, Structural)]
pub enum ArgumentsError {
    /// A `name = value` argument whose name is not a single identifier.
    PathNotIdentifier,
    /// A `name = value` argument whose value is not a string literal.
    ExpectedStringLiteral,
}

/// The name of the argument that gives the default document.
pub open spec fn default_file_key() -> Seq<char> {
    "file"@
}

/// What parsing `args` gives: the arguments are read in order; the first
/// refused one decides the error; a later `file` replaces an earlier one.
pub open spec fn parse_arguments_spec(args: Seq<AttributeArgumentView>) -> Result<
    ArgumentsView,
    ArgumentsError,
>
    decreases args.len(),
{
    if args.len() == 0 {
        Ok(ArgumentsView { default_file: None, custom_files: seq![] })
    } else {
        match parse_arguments_spec(args.drop_last()) {
            Err(e) => Err(e),
            Ok(parsed) => match args.last() {
                AttributeArgumentView::Other => Ok(parsed),
                AttributeArgumentView::NameValue { name, value } => match name {
                    None => Err(ArgumentsError::PathNotIdentifier),
                    Some(name) => match value {
                        ArgumentValueView::Other => Err(ArgumentsError::ExpectedStringLiteral),
                        ArgumentValueView::Str(file) => if name == default_file_key() {
                            Ok(ArgumentsView { default_file: Some(file), ..parsed })
                        } else {
                            Ok(
                                ArgumentsView {
                                    custom_files: parsed.custom_files.push((status_constant_name(name), file)),
                                    ..parsed
                                },
                            )
                        },
                    },
                },
            },
        }
    }
}

/// Once a prefix of the arguments is refused, so are all of them, with the same error.
proof fn lemma_refused_prefix_refuses_all(args: Seq<AttributeArgumentView>, k: int)
    requires
        0 <= k <= args.len(),
        parse_arguments_spec(args.take(k)) is Err,
    ensures
        parse_arguments_spec(args) == parse_arguments_spec(args.take(k)),
    decreases args.len(),
{
    if k == args.len() {
        assert(args.take(k) =~= args);
    } else {
        assert(args.drop_last().take(k) =~= args.take(k));
        lemma_refused_prefix_refuses_all(args.drop_last(), k);
    }
}

pub open spec fn arguments_result_view(r: Result<Arguments, ArgumentsError>) -> Result<
    ArgumentsView,
    ArgumentsError,
> {
    match r {
        Ok(a) => Ok(a@),
        Err(e) => Err(e),
    }
}

/// Reads the arguments of the page attribute: the default document and the
/// documents named for given statuses.
pub fn parse_arguments(args: &Vec<AttributeArgument>) -> (parsed: Result<Arguments, ArgumentsError>)
    ensures
        arguments_result_view(parsed) == parse_arguments_spec(args@.map_values(
            |a: AttributeArgument| a@,
        )),
{
    let ghost views = args@.map_values(|a: AttributeArgument| a@);
    let mut default_file: Option<String> = None;
    let mut custom_files: Vec<(String, String)> = Vec::new();
    let key = String::from_str("file");
    let mut i: usize = 0;
    assert(views.take(0) =~= seq![]);
    assert(custom_files@.map_values(|entry: (String, String)| (entry.0@, entry.1@)) =~= seq![]);
    while i < args.len()
        invariant
            i <= args.len(),
            views == args@.map_values(|a: AttributeArgument| a@),
            key@ == default_file_key(),
            parse_arguments_spec(views.take(i as int)) == Ok::<ArgumentsView, ArgumentsError>(
                (Arguments { default_file, custom_files })@,
            ),
        decreases args.len() - i,
    {
        assert(views.take(i + 1).drop_last() =~= views.take(i as int));
        assert(views.take(i + 1).last() == args@[i as int]@);
        match &args[i] {
            AttributeArgument::Other => {},
            AttributeArgument::NameValue { name, value } => {
                let name = match name {
                    Some(name) => name,
                    None => {
                        proof {
                            lemma_refused_prefix_refuses_all(views, i + 1);
                        }
                        return Err(ArgumentsError::PathNotIdentifier);
                    },
                };
                let file = match value {
                    ArgumentValue::Str(file) => file,
                    ArgumentValue::Other => {
                        proof {
                            lemma_refused_prefix_refuses_all(views, i + 1);
                        }
                        return Err(ArgumentsError::ExpectedStringLiteral);
                    },
                };
                if *name == key {
                    default_file = Some(file.clone());
                } else {
                    let ghost before = custom_files@;
                    custom_files.push((to_uppercase(name.as_str()), file.clone()));
                    assert(custom_files@.map_values(|entry: (String, String)| (entry.0@, entry.1@))
                        =~= before.map_values(|entry: (String, String)| (entry.0@, entry.1@)).push(
                        (status_constant_name(name@), file@),
                    ));
                }
            },
        }
        i = i + 1;
    }
    assert(views.take(args.len() as int) =~= views);
    Ok(Arguments { default_file, custom_files })
}

/// The shape of a handler's declared return type, as far as the page
/// attribute looks at it.
pub enum ReturnTypeShape {
    /// No return type is written.
    Default,
    /// A path type, with the identifiers of its segments.
    Path(Vec<String>),
    /// Any other type.
    Other,
}

pub open spec fn result_type_name() -> Seq<char> {
    "Result"@
}

/// Whether a handler returning `shape` returns a `Result`: its return type
/// is a path whose last segment is `Result`.
pub open spec fn is_result_return_type_spec(shape: ReturnTypeShape) -> bool {
    match shape {
        ReturnTypeShape::Path(segments) => segments@.len() > 0 && segments@.last()@
            == result_type_name(),
        _ => false,
    }
}

/// Whether a handler returning `shape` returns a `Result`, whose error the
/// page turns into a status and a payload.
pub fn is_result_return_type(shape: &ReturnTypeShape) -> (is_result: bool)
    ensures
        is_result == is_result_return_type_spec(*shape),
{
    match shape {
        ReturnTypeShape::Path(segments) => {
            if segments.len() == 0 {
                false
            } else {
                let key = String::from_str("Result");
                segments[segments.len() - 1] == key
            }
        },
        _ => false,
    }
}

} // verus!

verus! {

/// Reading one more argument: after arguments that were accepted, `file =
/// ".."` replaces the default document and keeps every status document; any
/// other `name = ".."` keeps the default document and adds the document for
/// the status named by `name` upper-cased after those already read; any
/// other argument changes nothing; a name that is no identifier or a value
/// that is no string literal refuses the whole. After a refused prefix the
/// error stays.
pub proof fn lemma_parse_arguments_push(
    args: Seq<AttributeArgumentView>,
    name: Option<Seq<char>>,
    value: ArgumentValueView,
)
    ensures
        ({
            let before = parse_arguments_spec(args);
            let pushed = AttributeArgumentView::NameValue { name, value };
            let after = parse_arguments_spec(args.push(pushed));
            let after_other = parse_arguments_spec(args.push(AttributeArgumentView::Other));
            &&& before is Err ==> after == before && after_other == before
            &&& before matches Ok(p) ==> {
                &&& after_other == before
                &&& name is None ==> after == Err::<ArgumentsView, ArgumentsError>(
                    ArgumentsError::PathNotIdentifier,
                )
                &&& (name is Some && value is Other) ==> after == Err::<
                    ArgumentsView,
                    ArgumentsError,
                >(ArgumentsError::ExpectedStringLiteral)
                &&& name matches Some(n) ==> value matches ArgumentValueView::Str(f) ==> {
                    &&& after is Ok
                    &&& n == "file"@ ==> after->Ok_0.default_file == Some(f)
                        && after->Ok_0.custom_files == p.custom_files
                    &&& n != "file"@ ==> after->Ok_0.default_file == p.default_file
                        && after->Ok_0.custom_files == p.custom_files.push(
                        (status_constant_name(n), f),
                    )
                }
            }
        }),
{
    assert(args.push(AttributeArgumentView::NameValue { name, value }).drop_last() =~= args);
    assert(args.push(AttributeArgumentView::Other).drop_last() =~= args);
}

/// The place of a `file = ".."` argument among accepted status arguments
/// does not matter: the status documents are the same, in the same order.
pub proof fn lemma_file_argument_commutes(
    args: Seq<AttributeArgumentView>,
    file: Seq<char>,
    name: Seq<char>,
    status_file: Seq<char>,
)
    requires
        name != "file"@,
    ensures
        ({
            let f = AttributeArgumentView::NameValue {
                name: Some("file"@),
                value: ArgumentValueView::Str(file),
            };
            let s = AttributeArgumentView::NameValue {
                name: Some(name),
                value: ArgumentValueView::Str(status_file),
            };
            parse_arguments_spec(args.push(f).push(s)) == parse_arguments_spec(
                args.push(s).push(f),
            )
        }),
{
    let f = AttributeArgumentView::NameValue {
        name: Some("file"@),
        value: ArgumentValueView::Str(file),
    };
    let s = AttributeArgumentView::NameValue {
        name: Some(name),
        value: ArgumentValueView::Str(status_file),
    };
    lemma_parse_arguments_push(args, Some("file"@), ArgumentValueView::Str(file));
    lemma_parse_arguments_push(args, Some(name), ArgumentValueView::Str(status_file));
    lemma_parse_arguments_push(args.push(f), Some(name), ArgumentValueView::Str(status_file));
    lemma_parse_arguments_push(args.push(s), Some("file"@), ArgumentValueView::Str(file));
}

} // verus!

verus! {

/// An all-ASCII argument name names the status constant spelt with the
/// same characters, each ASCII letter upper-cased and every other character
/// (digits, `_`) kept.
pub proof fn lemma_ascii_status_names(name: Seq<char>)
    requires
        vstd::utf8::is_ascii_chars(name),
    ensures
        status_constant_name(name).len() == name.len(),
        forall|i: int|
            0 <= i < name.len() ==> #[trigger] status_constant_name(name)[i] == if 'a' <= name[i]
                && name[i] <= 'z' {
                ((name[i] as u32) - 32) as char
            } else {
                name[i]
            },
{
}

} // verus!

verus! {

/// A handler returns a `Result` exactly when its return type is a path
/// whose last segment is `Result`, whatever the segments before it.
pub proof fn lemma_result_return_types(segments: Vec<String>)
    ensures
        !is_result_return_type_spec(ReturnTypeShape::Default),
        !is_result_return_type_spec(ReturnTypeShape::Other),
        segments@.len() == 0 ==> !is_result_return_type_spec(ReturnTypeShape::Path(segments)),
        segments@.len() > 0 ==> is_result_return_type_spec(ReturnTypeShape::Path(segments)) == (
        segments@[segments@.len() - 1]@ == "Result"@),
{
}

} // verus!
