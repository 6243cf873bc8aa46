use vstd::prelude::*;
use vstd::string::StringExecFns;

verus! {

/// A token of an accessor list such as `field = id, "name", other`.
pub enum MetaToken {
    /// An identifier.
    Ident(String),
    /// A string literal, with its value.
    Str(String),
    /// The punctuation `=`.
    Eq,
    /// The punctuation `,`.
    Comma,
    /// Any other token.
    Other,
}

pub enum MetaTokenView {
    Ident(Seq<char>),
    Str(Seq<char>),
    Eq,
    Comma,
    Other,
}

impl View for MetaToken {
    type V = MetaTokenView;

    open spec fn view(&self) -> MetaTokenView {
        match self {
            MetaToken::Ident(s) => MetaTokenView::Ident(s@),
            MetaToken::Str(s) => MetaTokenView::Str(s@),
            MetaToken::Eq => MetaTokenView::Eq,
            MetaToken::Comma => MetaTokenView::Comma,
            MetaToken::Other => MetaTokenView::Other,
        }
    }
}

/// Why an accessor list was refused.
#[derive(Debug, Clone, Copy, PartialEq, Eq, Structural)]
pub enum IdentListError {
    /// The list is empty.
    Empty,
    /// The list does not start with an identifier.
    MissingFieldKeyword,
    /// The list starts with an identifier other than `field`.
    WrongFieldKeyword,
    /// `field` is not followed by `=`.
    ExpectedEquals,
    /// An entry is neither an identifier nor a string literal.
    InvalidEntry,
    /// An entry is followed by something other than `,`.
    ExpectedComma,
}

pub open spec fn field_keyword() -> Seq<char> {
    "field"@
}

/// The field name that a token gives as an entry of the list, if any.
pub open spec fn entry_name(token: MetaTokenView) -> Option<Seq<char>> {
    match token {
        MetaTokenView::Ident(name) => Some(name),
        MetaTokenView::Str(name) => Some(name),
        _ => None,
    }
}

/// The entries of a list `a, "b", c`, a trailing comma allowed.
pub open spec fn parse_entries_spec(tokens: Seq<MetaTokenView>) -> Result<
    Seq<Seq<char>>,
    IdentListError,
>
    decreases tokens.len(),
{
    if tokens.len() == 0 {
        Ok(seq![])
    } else {
        match entry_name(tokens[0]) {
            None => Err(IdentListError::InvalidEntry),
            Some(name) => if tokens.len() == 1 {
                Ok(seq![name])
            } else if tokens[1] is Comma {
                match parse_entries_spec(tokens.skip(2)) {
                    Ok(rest) => Ok(seq![name] + rest),
                    Err(e) => Err(e),
                }
            } else {
                Err(IdentListError::ExpectedComma)
            },
        }
    }
}

/// The field names of an accessor list `field = a, "b", c`.
pub open spec fn parse_ident_list_spec(tokens: Seq<MetaTokenView>) -> Result<
    Seq<Seq<char>>,
    IdentListError,
> {
    if tokens.len() == 0 {
        Err(IdentListError::Empty)
    } else {
        match tokens[0] {
            MetaTokenView::Ident(keyword) => if keyword != field_keyword() {
                Err(IdentListError::WrongFieldKeyword)
            } else if tokens.len() >= 2 && tokens[1] is Eq {
                parse_entries_spec(tokens.skip(2))
            } else {
                Err(IdentListError::ExpectedEquals)
            },
            _ => Err(IdentListError::MissingFieldKeyword),
        }
    }
}

/// Why the accessor list `tokens` is refused, if it is.
pub open spec fn ident_list_error_spec(tokens: Seq<MetaTokenView>) -> Option<IdentListError> {
    match parse_ident_list_spec(tokens) {
        Ok(_) => None,
        Err(e) => Some(e),
    }
}

pub open spec fn tokens_view(tokens: Seq<MetaToken>) -> Seq<MetaTokenView> {
    tokens.map_values(|t: MetaToken| t@)
}

pub open spec fn names_view(names: Seq<String>) -> Seq<Seq<char>> {
    names.map_values(|s: String| s@)
}

pub open spec fn prepend_entries(
    acc: Seq<Seq<char>>,
    r: Result<Seq<Seq<char>>, IdentListError>,
) -> Result<Seq<Seq<char>>, IdentListError> {
    match r {
        Ok(rest) => Ok(acc + rest),
        Err(e) => Err(e),
    }
}

pub open spec fn names_result_view(r: Result<Vec<String>, IdentListError>) -> Result<
    Seq<Seq<char>>,
    IdentListError,
> {
    match r {
        Ok(names) => Ok(names_view(names@)),
        Err(e) => Err(e),
    }
}

/// Reads an accessor list `field = a, "b", c` into its field names, or
/// tells why it is refused.
fn read_ident_list(tokens: &Vec<MetaToken>) -> (names: Result<Vec<String>, IdentListError>)
    ensures
        names_result_view(names) == parse_ident_list_spec(tokens_view(tokens@)),
{
    let ghost toks = tokens_view(tokens@);
    let len = tokens.len();
    if len == 0 {
        return Err(IdentListError::Empty);
    }
    assert(toks[0] == tokens@[0]@);
    let key = String::from_str("field");
    match &tokens[0] {
        MetaToken::Ident(keyword) => {
            if *keyword != key {
                return Err(IdentListError::WrongFieldKeyword);
            }
        },
        _ => return Err(IdentListError::MissingFieldKeyword),
    }
    if len < 2 {
        return Err(IdentListError::ExpectedEquals);
    }
    assert(toks[1] == tokens@[1]@);
    match &tokens[1] {
        MetaToken::Eq => {},
        _ => return Err(IdentListError::ExpectedEquals),
    }
    assert(parse_ident_list_spec(toks) == parse_entries_spec(toks.skip(2)));
    let mut entries: Vec<String> = Vec::new();
    let mut i: usize = 2;
    assert(names_view(entries@) =~= seq![]);
    assert(toks.skip(2) + seq![] =~= toks.skip(2));
    while i < len
        invariant
            2 <= i <= len,
            len == tokens@.len(),
            toks == tokens_view(tokens@),
            parse_ident_list_spec(toks) == parse_entries_spec(toks.skip(2)),
            parse_entries_spec(toks.skip(2)) == prepend_entries(
                names_view(entries@),
                parse_entries_spec(toks.skip(i as int)),
            ),
        decreases len - i,
    {
        let ghost rest = toks.skip(i as int);
        assert(rest.len() == len - i);
        assert(rest[0] == tokens@[i as int]@);
        let name = match &tokens[i] {
            MetaToken::Ident(name) => name.clone(),
            MetaToken::Str(name) => name.clone(),
            _ => return Err(IdentListError::InvalidEntry),
        };
        let ghost before = names_view(entries@);
        if i + 1 < len {
            assert(rest[1] == tokens@[i + 1]@);
            match &tokens[i + 1] {
                MetaToken::Comma => {},
                _ => return Err(IdentListError::ExpectedComma),
            }
            entries.push(name);
            assert(rest.skip(2) =~= toks.skip(i + 2));
            assert(names_view(entries@) =~= before + seq![name@]);
            assert forall|r: Seq<Seq<char>>|
                before + (seq![name@] + r) =~= #[trigger] (names_view(entries@) + r) by {}
            i = i + 2;
        } else {
            entries.push(name);
            assert(names_view(entries@) =~= before + seq![name@]);
            assert(toks.skip(len as int) =~= seq![]);
            i = i + 1;
            assert(before + seq![name@] + seq![] =~= names_view(entries@));
        }
    }
    assert(toks.skip(len as int) =~= seq![]);
    assert(names_view(entries@) + seq![] =~= names_view(entries@));
    Ok(entries)
}

} // verus!

verus! {

/// The first position at or after `start` where `fields` holds `name`.
pub open spec fn field_index_from(fields: Seq<Seq<char>>, name: Seq<char>, start: int) -> Option<
    int,
>
    decreases fields.len() - start,
{
    if start < 0 || start >= fields.len() {
        None
    } else if fields[start] == name {
        Some(start)
    } else {
        field_index_from(fields, name, start + 1)
    }
}

/// The first position where `fields` holds `name`.
pub open spec fn field_index(fields: Seq<Seq<char>>, name: Seq<char>) -> Option<int> {
    field_index_from(fields, name, 0)
}

/// The prefix of the name of a setter.
pub open spec fn setter_prefix() -> Seq<char> {
    "set_"@
}

/// The name of the getter (`is_getter`) or setter of the field `field`.
pub open spec fn accessor_name(field: Seq<char>, is_getter: bool) -> Seq<char> {
    if is_getter {
        field
    } else {
        setter_prefix() + field
    }
}

/// A getter or setter to generate.
pub struct Accessor {
    /// Name of the method.
    pub method_name: String,
    /// Name of the field it reads or writes.
    pub field_name: String,
    /// Position of that field in the struct, which gives its type.
    pub field_index: usize,
}

pub struct AccessorView {
    pub method_name: Seq<char>,
    pub field_name: Seq<char>,
    pub field_index: int,
}

impl View for Accessor {
    type V = AccessorView;

    open spec fn view(&self) -> AccessorView {
        AccessorView {
            method_name: self.method_name@,
            field_name: self.field_name@,
            field_index: self.field_index as int,
        }
    }
}

pub open spec fn accessors_view(accessors: Seq<Accessor>) -> Seq<AccessorView> {
    accessors.map_values(|a: Accessor| a@)
}

/// The accessors asked for by `requested` in order, and the requested names
/// that are no field, in order.
pub open spec fn plan_accessors_spec(
    fields: Seq<Seq<char>>,
    requested: Seq<Seq<char>>,
    is_getter: bool,
) -> (Seq<AccessorView>, Seq<Seq<char>>)
    decreases requested.len(),
{
    if requested.len() == 0 {
        (seq![], seq![])
    } else {
        let (accessors, missing) = plan_accessors_spec(fields, requested.drop_last(), is_getter);
        let name = requested.last();
        match field_index(fields, name) {
            Some(k) => (
                accessors.push(
                    AccessorView {
                        method_name: accessor_name(name, is_getter),
                        field_name: name,
                        field_index: k,
                    },
                ),
                missing,
            ),
            None => (accessors, missing.push(name)),
        }
    }
}

/// The same, for an optional list: no list asks for nothing.
pub open spec fn plan_optional_accessors_spec(
    fields: Seq<Seq<char>>,
    requested: Option<Seq<Seq<char>>>,
    is_getter: bool,
) -> (Seq<AccessorView>, Seq<Seq<char>>) {
    match requested {
        Some(requested) => plan_accessors_spec(fields, requested, is_getter),
        None => (seq![], seq![]),
    }
}

pub open spec fn option_names_view(names: Option<&Vec<String>>) -> Option<Seq<Seq<char>>> {
    match names {
        Some(names) => Some(names_view(names@)),
        None => None,
    }
}

/// The first position where `field_names` holds `name`, if any.
pub fn find_field(field_names: &Vec<String>, name: &String) -> (index: Option<usize>)
    ensures
        match index {
            Some(k) => field_index(names_view(field_names@), name@) == Some(k as int),
            None => field_index(names_view(field_names@), name@) is None,
        },
{
    let ghost fields = names_view(field_names@);
    let mut i: usize = 0;
    while i < field_names.len()
        invariant
            i <= field_names.len(),
            fields == names_view(field_names@),
            field_index_from(fields, name@, 0) == field_index_from(fields, name@, i as int),
        decreases field_names.len() - i,
    {
        assert(fields[i as int] == field_names@[i as int]@);
        if field_names[i] == *name {
            return Some(i);
        }
        i = i + 1;
    }
    None
}

/// The getters (`is_getter`) or setters asked for by `requested`, each
/// naming the field it accesses and that field's position, and the
/// requested names that are no field. A setter of `x` is named `set_x`.
pub fn plan_accessors(
    field_names: &Vec<String>,
    requested: Option<&Vec<String>>,
    is_getter: bool,
) -> (planned: (Vec<Accessor>, Vec<String>))
    ensures
        (accessors_view(planned.0@), names_view(planned.1@)) == plan_optional_accessors_spec(
            names_view(field_names@),
            option_names_view(requested),
            is_getter,
        ),
{
    let mut accessors: Vec<Accessor> = Vec::new();
    let mut missing: Vec<String> = Vec::new();
    let requested = match requested {
        Some(requested) => requested,
        None => {
            assert(accessors_view(accessors@) =~= seq![]);
            assert(names_view(missing@) =~= seq![]);
            return (accessors, missing);
        },
    };
    let ghost fields = names_view(field_names@);
    let ghost names = names_view(requested@);
    let mut i: usize = 0;
    assert(accessors_view(accessors@) =~= seq![]);
    assert(names_view(missing@) =~= seq![]);
    assert(names.take(0) =~= seq![]);
    while i < requested.len()
        invariant
            i <= requested.len(),
            fields == names_view(field_names@),
            names == names_view(requested@),
            (accessors_view(accessors@), names_view(missing@)) == plan_accessors_spec(
                fields,
                names.take(i as int),
                is_getter,
            ),
        decreases requested.len() - i,
    {
        let name = &requested[i];
        assert(names.take(i + 1).drop_last() =~= names.take(i as int));
        assert(names.take(i + 1).last() == name@);
        let ghost before_accessors = accessors_view(accessors@);
        let ghost before_missing = names_view(missing@);
        match find_field(field_names, name) {
            Some(k) => {
                let method_name = if is_getter {
                    name.clone()
                } else {
                    let mut setter = String::from_str("set_");
                    setter.append(name.as_str());
                    setter
                };
                accessors.push(Accessor { method_name, field_name: name.clone(), field_index: k });
                assert(accessors_view(accessors@) =~= before_accessors.push(
                    AccessorView {
                        method_name: accessor_name(name@, is_getter),
                        field_name: name@,
                        field_index: k as int,
                    },
                ));
            },
            None => {
                missing.push(name.clone());
                assert(names_view(missing@) =~= before_missing.push(name@));
            },
        }
        i = i + 1;
    }
    assert(names.take(requested.len() as int) =~= names);
    (accessors, missing)
}

} // verus!

verus! {

/// The fields of the struct that fields are added to.
pub enum StructShape {
    /// A struct with named fields, with their names in order.
    Named(Vec<String>),
    /// A tuple struct.
    Unnamed,
    /// A unit struct.
    Unit,
}

pub enum StructShapeView {
    Named(Seq<Seq<char>>),
    Unnamed,
    Unit,
}

impl View for StructShape {
    type V = StructShapeView;

    open spec fn view(&self) -> StructShapeView {
        match self {
            StructShape::Named(names) => StructShapeView::Named(names_view(names@)),
            StructShape::Unnamed => StructShapeView::Unnamed,
            StructShape::Unit => StructShapeView::Unit,
        }
    }
}

/// Why fields could not be added.
pub enum AddFieldsError {
    /// The struct is a tuple struct.
    TupleStruct,
    /// The struct is a unit struct.
    UnitStruct,
    /// Getters or setters were asked for names that are no field: first
    /// those of the getters, then those of the setters.
    FieldsNotFound(Vec<String>),
}

pub enum AddFieldsErrorView {
    TupleStruct,
    UnitStruct,
    FieldsNotFound(Seq<Seq<char>>),
}

impl View for AddFieldsError {
    type V = AddFieldsErrorView;

    open spec fn view(&self) -> AddFieldsErrorView {
        match self {
            AddFieldsError::TupleStruct => AddFieldsErrorView::TupleStruct,
            AddFieldsError::UnitStruct => AddFieldsErrorView::UnitStruct,
            AddFieldsError::FieldsNotFound(names) => AddFieldsErrorView::FieldsNotFound(
                names_view(names@),
            ),
        }
    }
}

/// The struct with its added fields, and its accessors.
pub struct AddFieldsPlan {
    /// The names of all fields: those of the struct, then the added ones.
    pub field_names: Vec<String>,
    pub getters: Vec<Accessor>,
    pub setters: Vec<Accessor>,
}

pub struct AddFieldsPlanView {
    pub field_names: Seq<Seq<char>>,
    pub getters: Seq<AccessorView>,
    pub setters: Seq<AccessorView>,
}

impl View for AddFieldsPlan {
    type V = AddFieldsPlanView;

    open spec fn view(&self) -> AddFieldsPlanView {
        AddFieldsPlanView {
            field_names: names_view(self.field_names@),
            getters: accessors_view(self.getters@),
            setters: accessors_view(self.setters@),
        }
    }
}

/// Adding the fields `added` to a struct of the shape `shape`, with the
/// getters and setters asked for.
pub open spec fn plan_add_fields_spec(
    shape: StructShapeView,
    added: Seq<Seq<char>>,
    getters: Option<Seq<Seq<char>>>,
    setters: Option<Seq<Seq<char>>>,
) -> Result<AddFieldsPlanView, AddFieldsErrorView> {
    match shape {
        StructShapeView::Unnamed => Err(AddFieldsErrorView::TupleStruct),
        StructShapeView::Unit => Err(AddFieldsErrorView::UnitStruct),
        StructShapeView::Named(existing) => {
            let fields = existing + added;
            let (g, g_missing) = plan_optional_accessors_spec(fields, getters, true);
            let (s, s_missing) = plan_optional_accessors_spec(fields, setters, false);
            if g_missing.len() + s_missing.len() == 0 {
                Ok(AddFieldsPlanView { field_names: fields, getters: g, setters: s })
            } else {
                Err(AddFieldsErrorView::FieldsNotFound(g_missing + s_missing))
            }
        },
    }
}

pub open spec fn plan_result_view(r: Result<AddFieldsPlan, AddFieldsError>) -> Result<
    AddFieldsPlanView,
    AddFieldsErrorView,
> {
    match r {
        Ok(plan) => Ok(plan@),
        Err(e) => Err(e@),
    }
}

/// Adds the fields `added` to a struct of the shape `shape`, with the
/// getters and setters asked for: refused for tuple and unit structs, and
/// where an accessor is asked for a name that is no field.
pub fn plan_add_fields(
    shape: StructShape,
    added: &Vec<String>,
    getters: Option<&Vec<String>>,
    setters: Option<&Vec<String>>,
) -> (plan: Result<AddFieldsPlan, AddFieldsError>)
    ensures
        plan_result_view(plan) == plan_add_fields_spec(
            shape@,
            names_view(added@),
            option_names_view(getters),
            option_names_view(setters),
        ),
{
    let mut fields = match shape {
        StructShape::Named(names) => names,
        StructShape::Unnamed => return Err(AddFieldsError::TupleStruct),
        StructShape::Unit => return Err(AddFieldsError::UnitStruct),
    };
    let ghost existing = names_view(fields@);
    let mut i: usize = 0;
    while i < added.len()
        invariant
            i <= added.len(),
            names_view(fields@) == existing + names_view(added@).take(i as int),
        decreases added.len() - i,
    {
        let ghost before = names_view(fields@);
        fields.push(added[i].clone());
        assert(names_view(fields@) =~= before.push(added@[i as int]@));
        assert(names_view(added@).take(i + 1) =~= names_view(added@).take(i as int).push(
            added@[i as int]@,
        ));
        i = i + 1;
    }
    assert(names_view(added@).take(added.len() as int) =~= names_view(added@));
    let (getter_plan, mut missing) = plan_accessors(&fields, getters, true);
    let (setter_plan, setter_missing) = plan_accessors(&fields, setters, false);
    if missing.len() == 0 && setter_missing.len() == 0 {
        Ok(AddFieldsPlan { field_names: fields, getters: getter_plan, setters: setter_plan })
    } else {
        let ghost getter_missing = names_view(missing@);
        let mut j: usize = 0;
        while j < setter_missing.len()
            invariant
                j <= setter_missing.len(),
                names_view(missing@) == getter_missing + names_view(setter_missing@).take(
                    j as int,
                ),
            decreases setter_missing.len() - j,
        {
            let ghost before = names_view(missing@);
            missing.push(setter_missing[j].clone());
            assert(names_view(missing@) =~= before.push(setter_missing@[j as int]@));
            assert(names_view(setter_missing@).take(j + 1) =~= names_view(setter_missing@).take(
                j as int,
            ).push(setter_missing@[j as int]@));
            j = j + 1;
        }
        assert(names_view(setter_missing@).take(setter_missing.len() as int) =~= names_view(
            setter_missing@,
        ));
        Err(AddFieldsError::FieldsNotFound(missing))
    }
}

} // verus!

verus! {

/// Why the accessor list `tokens` is refused, or `None` where it is well formed.
pub fn ident_list_error(tokens: &Vec<MetaToken>) -> (error: Option<IdentListError>)
    ensures
        error == ident_list_error_spec(tokens_view(tokens@)),
{
    match read_ident_list(tokens) {
        Ok(_) => None,
        Err(e) => Some(e),
    }
}

/// Reads a well-formed accessor list `field = a, "b", c` into its field names.
pub fn parse_ident_list(tokens: &Vec<MetaToken>) -> (names: Vec<String>)
    requires
        parse_ident_list_spec(tokens_view(tokens@)) is Ok,
    ensures
        parse_ident_list_spec(tokens_view(tokens@)) == Ok::<Seq<Seq<char>>, IdentListError>(
            names_view(names@),
        ),
{
    match read_ident_list(tokens) {
        Ok(names) => names,
        Err(_) => Vec::new(),
    }
}

/// What a search for a field finds: the position of the field, or nothing
/// exactly when no field has the name.
proof fn lemma_field_index_from(fields: Seq<Seq<char>>, name: Seq<char>, start: int)
    requires
        0 <= start,
    ensures
        match field_index_from(fields, name, start) {
            Some(k) => start <= k < fields.len() && fields[k] == name && forall|j: int|
                start <= j < k ==> fields[j] != name,
            None => forall|j: int| start <= j < fields.len() ==> fields[j] != name,
        },
    decreases fields.len() - start,
{
    if start < fields.len() && fields[start] != name {
        lemma_field_index_from(fields, name, start + 1);
    }
}

/// Every planned accessor accesses a field that the struct has, at the
/// position given, under the name asked for; a setter's method is `set_`
/// followed by the field's name, a getter's is the field's name. Each
/// requested name gives either one accessor or one missing name.
pub proof fn lemma_accessors_name_their_fields(
    fields: Seq<Seq<char>>,
    requested: Seq<Seq<char>>,
    is_getter: bool,
)
    ensures
        ({
            let (accessors, missing) = plan_accessors_spec(fields, requested, is_getter);
            &&& accessors.len() + missing.len() == requested.len()
            &&& forall|i: int|
                0 <= i < accessors.len() ==> {
                    let a = #[trigger] accessors[i];
                    &&& 0 <= a.field_index < fields.len()
                    &&& fields[a.field_index] == a.field_name
                    &&& a.method_name == accessor_name(a.field_name, is_getter)
                    &&& requested.contains(a.field_name)
                }
        }),
    decreases requested.len(),
{
    if requested.len() > 0 {
        let rest = requested.drop_last();
        lemma_accessors_name_their_fields(fields, rest, is_getter);
        lemma_field_index_from(fields, requested.last(), 0);
        let (accessors, missing) = plan_accessors_spec(fields, rest, is_getter);
        assert forall|i: int| 0 <= i < accessors.len() implies requested.contains(
            #[trigger] accessors[i].field_name,
        ) by {
            let j = choose|j: int| 0 <= j < rest.len() && rest[j] == accessors[i].field_name;
            assert(requested[j] == rest[j]);
        }
        assert(requested[requested.len() - 1] == requested.last());
    }
}

/// The names reported missing are exactly the requested names that are no
/// field of the struct.
pub proof fn lemma_missing_names_are_not_fields(
    fields: Seq<Seq<char>>,
    requested: Seq<Seq<char>>,
    is_getter: bool,
    name: Seq<char>,
)
    ensures
        plan_accessors_spec(fields, requested, is_getter).1.contains(name) <==> (
        requested.contains(name) && !fields.contains(name)),
    decreases requested.len(),
{
    if requested.len() > 0 {
        let rest = requested.drop_last();
        let last = requested.last();
        lemma_missing_names_are_not_fields(fields, rest, is_getter, name);
        lemma_field_index_from(fields, last, 0);
        let missing = plan_accessors_spec(fields, rest, is_getter).1;
        assert(requested =~= rest.push(last));
        if requested.contains(name) && !rest.contains(name) {
            let j = choose|j: int| 0 <= j < requested.len() && requested[j] == name;
            assert(j == requested.len() - 1);
        }
        if rest.contains(name) {
            let j = choose|j: int| 0 <= j < rest.len() && rest[j] == name;
            assert(requested[j] == name);
        }
        if fields.contains(name) {
            let j = choose|j: int| 0 <= j < fields.len() && fields[j] == name;
            assert(fields[j] == name);
        }
        if missing.push(last).contains(name) && !missing.contains(name) {
            let j = choose|j: int| 0 <= j < missing.push(last).len() && missing.push(last)[j] == name;
            assert(j == missing.len());
        }
        if missing.contains(name) {
            let j = choose|j: int| 0 <= j < missing.len() && missing[j] == name;
            assert(missing.push(last)[j] == name);
        }
        if field_index(fields, last) is None && name == last {
            assert(missing.push(last)[missing.len() as int] == name);
            assert(requested[requested.len() - 1] == name);
        }
    }
}

/// Fields are added with their accessors exactly when the struct has named
/// fields and every name asked for a getter or a setter is a field of the
/// struct once the fields are added.
pub proof fn lemma_add_fields_succeeds_iff_all_known(
    existing: Seq<Seq<char>>,
    added: Seq<Seq<char>>,
    getters: Seq<Seq<char>>,
    setters: Seq<Seq<char>>,
)
    ensures
        plan_add_fields_spec(
            StructShapeView::Named(existing),
            added,
            Some(getters),
            Some(setters),
        ) is Ok <==> (forall|name: Seq<char>|
            (getters.contains(name) || setters.contains(name)) ==> #[trigger] (existing
                + added).contains(name)),
{
    let fields = existing + added;
    let g_missing = plan_accessors_spec(fields, getters, true).1;
    let s_missing = plan_accessors_spec(fields, setters, false).1;
    if g_missing.len() + s_missing.len() == 0 {
        assert forall|name: Seq<char>|
            (getters.contains(name) || setters.contains(name)) implies #[trigger] fields.contains(
            name,
        ) by {
            lemma_missing_names_are_not_fields(fields, getters, true, name);
            lemma_missing_names_are_not_fields(fields, setters, false, name);
        }
    } else {
        let name = if g_missing.len() > 0 {
            g_missing[0]
        } else {
            s_missing[0]
        };
        lemma_missing_names_are_not_fields(fields, getters, true, name);
        lemma_missing_names_are_not_fields(fields, setters, false, name);
        if g_missing.len() > 0 {
            assert(g_missing.contains(name));
        } else {
            assert(s_missing.contains(name));
        }
    }
}

} // verus!

verus! {

/// When no requested name is missing, the accessors are exactly one per
/// requested name, in the order asked, each for the first field of that
/// name, with the method named after the field (`set_` before it for a
/// setter).
proof fn lemma_accessors_when_none_missing(
    fields: Seq<Seq<char>>,
    requested: Seq<Seq<char>>,
    is_getter: bool,
)
    requires
        plan_accessors_spec(fields, requested, is_getter).1.len() == 0,
    ensures
        ({
            let accessors = plan_accessors_spec(fields, requested, is_getter).0;
            &&& accessors.len() == requested.len()
            &&& forall|i: int|
                0 <= i < requested.len() ==> {
                    let a = #[trigger] accessors[i];
                    &&& a.field_name == requested[i]
                    &&& a.method_name == if is_getter {
                        requested[i]
                    } else {
                        "set_"@ + requested[i]
                    }
                    &&& 0 <= a.field_index < fields.len()
                    &&& fields[a.field_index] == requested[i]
                    &&& forall|j: int| 0 <= j < a.field_index ==> fields[j] != requested[i]
                }
        }),
    decreases requested.len(),
{
    if requested.len() > 0 {
        let rest = requested.drop_last();
        let (acc, missing) = plan_accessors_spec(fields, rest, is_getter);
        lemma_field_index_from(fields, requested.last(), 0);
        if field_index(fields, requested.last()) is None {
            assert(plan_accessors_spec(fields, requested, is_getter).1.len() == missing.len() + 1);
        }
        lemma_accessors_when_none_missing(fields, rest, is_getter);
        assert forall|i: int| 0 <= i < rest.len() implies requested[i] == rest[i] by {}
    }
}

/// Adding fields to a struct with named fields: where the plan succeeds,
/// the fields are the struct's followed by the added ones; the getters are
/// one per name of the getter list, in its order, each for the first field
/// of that name and named after it, whatever the setter list is; the
/// setters likewise from the setter list, named `set_` and the field's
/// name, whatever the getter list is. No list asks for no accessor.
pub proof fn lemma_add_fields_plan(
    existing: Seq<Seq<char>>,
    added: Seq<Seq<char>>,
    getters: Option<Seq<Seq<char>>>,
    setters: Option<Seq<Seq<char>>>,
)
    ensures
        plan_add_fields_spec(StructShapeView::Named(existing), added, getters, setters) matches Ok(
            p,
        ) ==> {
            let fields = existing + added;
            &&& p.field_names == fields
            &&& getters is None ==> p.getters.len() == 0
            &&& setters is None ==> p.setters.len() == 0
            &&& getters matches Some(g) ==> {
                &&& p.getters.len() == g.len()
                &&& forall|i: int|
                    0 <= i < g.len() ==> {
                        let a = #[trigger] p.getters[i];
                        &&& a.field_name == g[i]
                        &&& a.method_name == g[i]
                        &&& 0 <= a.field_index < fields.len()
                        &&& fields[a.field_index] == g[i]
                        &&& forall|j: int| 0 <= j < a.field_index ==> fields[j] != g[i]
                    }
            }
            &&& setters matches Some(t) ==> {
                &&& p.setters.len() == t.len()
                &&& forall|i: int|
                    0 <= i < t.len() ==> {
                        let a = #[trigger] p.setters[i];
                        &&& a.field_name == t[i]
                        &&& a.method_name == "set_"@ + t[i]
                        &&& 0 <= a.field_index < fields.len()
                        &&& fields[a.field_index] == t[i]
                        &&& forall|j: int| 0 <= j < a.field_index ==> fields[j] != t[i]
                    }
            }
        },
{
    let fields = existing + added;
    if plan_add_fields_spec(StructShapeView::Named(existing), added, getters, setters) is Ok {
        if let Some(g) = getters {
            lemma_accessors_when_none_missing(fields, g, true);
        }
        if let Some(t) = setters {
            lemma_accessors_when_none_missing(fields, t, false);
        }
    }
}

} // verus!

verus! {

/// Fields cannot be added to tuple or unit structs; to a struct with named
/// fields they are added exactly when every name in the getter list and in
/// the setter list, where given, is a field once the fields are added.
pub proof fn lemma_add_fields_outcome(
    existing: Seq<Seq<char>>,
    added: Seq<Seq<char>>,
    getters: Option<Seq<Seq<char>>>,
    setters: Option<Seq<Seq<char>>>,
)
    ensures
        plan_add_fields_spec(StructShapeView::Unnamed, added, getters, setters) == Err::<
            AddFieldsPlanView,
            AddFieldsErrorView,
        >(AddFieldsErrorView::TupleStruct),
        plan_add_fields_spec(StructShapeView::Unit, added, getters, setters) == Err::<
            AddFieldsPlanView,
            AddFieldsErrorView,
        >(AddFieldsErrorView::UnitStruct),
        plan_add_fields_spec(StructShapeView::Named(existing), added, getters, setters) is Ok
            <==> (forall|name: Seq<char>|
            ((getters matches Some(g) && g.contains(name)) || (setters matches Some(t)
                && t.contains(name))) ==> #[trigger] (existing + added).contains(name)),
{
    let fields = existing + added;
    let g = match getters {
        Some(g) => g,
        None => seq![],
    };
    let t = match setters {
        Some(t) => t,
        None => seq![],
    };
    assert(plan_optional_accessors_spec(fields, getters, true) == plan_accessors_spec(fields, g, true));
    assert(plan_optional_accessors_spec(fields, setters, false) == plan_accessors_spec(fields, t, false));
    lemma_add_fields_succeeds_iff_all_known(existing, added, g, t);
    assert forall|name: Seq<char>|
        ((getters matches Some(g) && g.contains(name)) || (setters matches Some(t) && t.contains(
            name,
        ))) <==> (g.contains(name) || t.contains(name)) by {}
}

/// A well-formed accessor list: `field`, `=`, then the names, each an
/// identifier or a string literal, separated by commas, a trailing comma
/// allowed.
pub open spec fn entry_token(name: Seq<char>, as_string: bool) -> MetaTokenView {
    if as_string {
        MetaTokenView::Str(name)
    } else {
        MetaTokenView::Ident(name)
    }
}

/// The tokens of the entries `names`, written as string literals where
/// `as_string` says so, separated by commas, with a trailing comma where
/// `trailing` says so.
pub open spec fn entry_tokens(names: Seq<Seq<char>>, as_string: Seq<bool>, trailing: bool) -> Seq<
    MetaTokenView,
>
    decreases names.len(),
{
    if names.len() == 0 {
        seq![]
    } else if names.len() == 1 {
        if trailing {
            seq![entry_token(names[0], as_string[0]), MetaTokenView::Comma]
        } else {
            seq![entry_token(names[0], as_string[0])]
        }
    } else {
        seq![entry_token(names[0], as_string[0]), MetaTokenView::Comma] + entry_tokens(
            names.drop_first(),
            as_string.drop_first(),
            trailing,
        )
    }
}

proof fn lemma_entries_read_back(names: Seq<Seq<char>>, as_string: Seq<bool>, trailing: bool)
    requires
        as_string.len() == names.len(),
    ensures
        parse_entries_spec(entry_tokens(names, as_string, trailing)) == Ok::<
            Seq<Seq<char>>,
            IdentListError,
        >(names),
    decreases names.len(),
{
    let toks = entry_tokens(names, as_string, trailing);
    if names.len() == 0 {
        assert(names =~= seq![]);
    } else if names.len() == 1 {
        assert(entry_name(toks[0]) == Some(names[0]));
        if trailing {
            assert(toks[1] is Comma);
            assert(toks.skip(2) =~= seq![]);
            assert(parse_entries_spec(toks.skip(2)) == Ok::<Seq<Seq<char>>, IdentListError>(seq![]));
            assert(seq![names[0]] + seq![] =~= names);
        } else {
            assert(seq![names[0]] =~= names);
        }
    } else {
        let rest = entry_tokens(names.drop_first(), as_string.drop_first(), trailing);
        lemma_entries_read_back(names.drop_first(), as_string.drop_first(), trailing);
        assert(entry_name(toks[0]) == Some(names[0]));
        assert(toks[1] is Comma);
        assert(toks.skip(2) =~= rest);
        assert(seq![names[0]] + names.drop_first() =~= names);
    }
}

/// Every well-formed accessor list is read back into exactly its names, in
/// order, whether each is written as an identifier or a string literal and
/// whether a trailing comma ends the list.
pub proof fn lemma_ident_list_reads_back(names: Seq<Seq<char>>, as_string: Seq<bool>, trailing: bool)
    requires
        as_string.len() == names.len(),
        names.len() == 0 ==> !trailing,
    ensures
        parse_ident_list_spec(
            seq![MetaTokenView::Ident("field"@), MetaTokenView::Eq] + entry_tokens(
                names,
                as_string,
                trailing,
            ),
        ) == Ok::<Seq<Seq<char>>, IdentListError>(names),
{
    let toks = seq![MetaTokenView::Ident("field"@), MetaTokenView::Eq] + entry_tokens(
        names,
        as_string,
        trailing,
    );
    assert(toks[0] == MetaTokenView::Ident("field"@));
    assert(toks[1] == MetaTokenView::Eq);
    assert(toks.skip(2) =~= entry_tokens(names, as_string, trailing));
    lemma_entries_read_back(names, as_string, trailing);
}

} // verus!

verus! {

/// Why an accessor list is refused, by its first tokens: an empty list; a
/// list not starting with an identifier; a first identifier other than
/// `field`; `field` not followed by `=`; and after `field =`, an entry that
/// is neither an identifier nor a string literal, or two entries without a
/// comma between them.
pub proof fn lemma_ident_list_refusals(tokens: Seq<MetaTokenView>, rest: Seq<MetaTokenView>)
    ensures
        parse_ident_list_spec(seq![]) == Err::<Seq<Seq<char>>, IdentListError>(
            IdentListError::Empty,
        ),
        tokens.len() > 0 && !(tokens[0] is Ident) ==> parse_ident_list_spec(tokens) == Err::<
            Seq<Seq<char>>,
            IdentListError,
        >(IdentListError::MissingFieldKeyword),
        tokens.len() > 0 && tokens[0] is Ident && tokens[0]->Ident_0 != "field"@
            ==> parse_ident_list_spec(tokens) == Err::<Seq<Seq<char>>, IdentListError>(
            IdentListError::WrongFieldKeyword,
        ),
        tokens.len() > 0 && tokens[0] == MetaTokenView::Ident("field"@) && (tokens.len() == 1
            || !(tokens[1] is Eq)) ==> parse_ident_list_spec(tokens) == Err::<
            Seq<Seq<char>>,
            IdentListError,
        >(IdentListError::ExpectedEquals),
        ({
            let head = seq![MetaTokenView::Ident("field"@), MetaTokenView::Eq];
            &&& rest.len() > 0 && entry_name(rest[0]) is None ==> parse_ident_list_spec(
                head + rest,
            ) == Err::<Seq<Seq<char>>, IdentListError>(IdentListError::InvalidEntry)
            &&& rest.len() > 1 && entry_name(rest[0]) is Some && !(rest[1] is Comma)
                ==> parse_ident_list_spec(head + rest) == Err::<Seq<Seq<char>>, IdentListError>(
                IdentListError::ExpectedComma,
            )
        }),
{
    let head = seq![MetaTokenView::Ident("field"@), MetaTokenView::Eq];
    assert((head + rest)[0] == head[0]);
    assert((head + rest)[1] == head[1]);
    assert((head + rest).skip(2) =~= rest);
}

} // verus!
