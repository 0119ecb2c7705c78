//! The outcome of validating a payload, and the rules on single fields.

use vstd::prelude::*;

verus! {

/// The payloads that carry a rule across two of their fields.
#[derive(Clone, Copy, Debug, PartialEq, Eq, Structural)]
pub enum Entity {
    Candidate,
    Experience,
    ListCandidate,
}

/// The fields that carry a rule of their own.
#[derive(Clone, Copy, Debug, PartialEq, Eq, Structural)]
pub enum Field {
    FirstName,
    LastName,
    Description,
    Email,
    PhoneNumber,
    CompanyName,
    Password,
    File,
}

/// The kinds of rule on a single field.
#[derive(Clone, Copy, Debug, PartialEq, Eq, Structural)]
pub enum Rule {
    Length,
    Email,
    Phone,
    Required,
}

/// One broken rule: that of a field, or the rule across the fields of a
/// payload, which is reported apart.
#[derive(Clone, Copy, Debug, PartialEq, Eq, Structural)]
pub enum Violation {
    Field(Field, Rule),
    Schema(Entity),
}

/// The rule that a field carries.
pub open spec fn rule_of(field: Field) -> Rule {
    match field {
        Field::Email => Rule::Email,
        Field::PhoneNumber => Rule::Phone,
        Field::File => Rule::Required,
        _ => Rule::Length,
    }
}

/// The name of a field, as the payloads spell it.
pub open spec fn field_name(field: Field) -> Seq<char> {
    match field {
        Field::FirstName => "first_name"@,
        Field::LastName => "last_name"@,
        Field::Description => "description"@,
        Field::Email => "email"@,
        Field::PhoneNumber => "phone_number"@,
        Field::CompanyName => "company_name"@,
        Field::Password => "password"@,
        Field::File => "file"@,
    }
}

/// The name of a kind of rule.
pub open spec fn rule_name(rule: Rule) -> Seq<char> {
    match rule {
        Rule::Length => "length"@,
        Rule::Email => "email"@,
        Rule::Phone => "phone"@,
        Rule::Required => "required"@,
    }
}

/// The tag under which the rule across the fields of a payload is reported.
pub open spec fn entity_tag(entity: Entity) -> Seq<char> {
    match entity {
        Entity::Candidate => "Candidate"@,
        Entity::Experience => "Experience"@,
        Entity::ListCandidate => "List Candidate"@,
    }
}

/// What the rule across the fields of a payload says when it is broken.
pub open spec fn schema_message(entity: Entity) -> Seq<char> {
    match entity {
        Entity::Candidate => "available from is not smaller than available to"@,
        Entity::Experience => "start_date is not smaller than end_date"@,
        Entity::ListCandidate => "start_date is not smaller than end_date"@,
    }
}

/// One broken rule in words: the field and the kind of its rule, or the
/// tag of the payload and what its rule says.
pub open spec fn violation_text(violation: Violation) -> Seq<char> {
    match violation {
        Violation::Field(field, rule) => field_name(field) + ": "@ + rule_name(rule),
        Violation::Schema(entity) => entity_tag(entity) + ": "@ + schema_message(entity),
    }
}

/// Broken rules in words, one after the other, with "; " between them.
pub open spec fn joined(list: Seq<Violation>) -> Seq<char>
    decreases list.len(),
{
    if list.len() == 0 {
        Seq::empty()
    } else if list.len() == 1 {
        violation_text(list[0])
    } else {
        joined(list.drop_last()) + "; "@ + violation_text(list.last())
    }
}

impl Field {
    /// The name of the field, as the payloads spell it.
    pub fn name(self) -> (text: &'static str)
        ensures
            text@ == field_name(self),
    {
        match self {
            Field::FirstName => "first_name",
            Field::LastName => "last_name",
            Field::Description => "description",
            Field::Email => "email",
            Field::PhoneNumber => "phone_number",
            Field::CompanyName => "company_name",
            Field::Password => "password",
            Field::File => "file",
        }
    }
}

impl Rule {
    /// The name of the kind of rule.
    pub fn name(self) -> (text: &'static str)
        ensures
            text@ == rule_name(self),
    {
        match self {
            Rule::Length => "length",
            Rule::Email => "email",
            Rule::Phone => "phone",
            Rule::Required => "required",
        }
    }
}

impl Entity {
    /// The tag under which the rule across the fields of the payload is
    /// reported.
    pub fn tag(self) -> (text: &'static str)
        ensures
            text@ == entity_tag(self),
    {
        match self {
            Entity::Candidate => "Candidate",
            Entity::Experience => "Experience",
            Entity::ListCandidate => "List Candidate",
        }
    }

    /// What the rule across the fields of the payload says when it is
    /// broken.
    pub fn message(self) -> (text: &'static str)
        ensures
            text@ == schema_message(self),
    {
        match self {
            Entity::Candidate => "available from is not smaller than available to",
            Entity::Experience => "start_date is not smaller than end_date",
            Entity::ListCandidate => "start_date is not smaller than end_date",
        }
    }
}

impl Violation {
    /// The broken rule in words.
    pub fn describe(self) -> (text: String)
        ensures
            text@ == violation_text(self),
    {
        match self {
            Violation::Field(field, rule) => {
                let mut text = String::from_str(field.name());
                text.append(": ");
                text.append(rule.name());
                text
            },
            Violation::Schema(entity) => {
                let mut text = String::from_str(entity.tag());
                text.append(": ");
                text.append(entity.message());
                text
            },
        }
    }
}

/// Every rule that a payload breaks: one flag for each field that carries a
/// rule, set where the field breaks it, and the payload whose rule across
/// fields is broken, if one is.
#[derive(Clone, Copy, Debug, PartialEq, Eq, Structural)]
pub struct ValidationErrors {
    pub first_name: bool,
    pub last_name: bool,
    pub description: bool,
    pub email: bool,
    pub phone_number: bool,
    pub company_name: bool,
    pub password: bool,
    pub file: bool,
    pub schema: Option<Entity>,
}

/// `list`, with `violation` at its end if `broken` is set.
pub open spec fn appended_if(list: Seq<Violation>, broken: bool, violation: Violation) -> Seq<Violation> {
    if broken {
        list.push(violation)
    } else {
        list
    }
}

impl ValidationErrors {
    /// No rule broken.
    pub open spec fn none() -> ValidationErrors {
        ValidationErrors {
            first_name: false,
            last_name: false,
            description: false,
            email: false,
            phone_number: false,
            company_name: false,
            password: false,
            file: false,
            schema: None,
        }
    }

    /// Whether the rule of `field` is broken.
    pub open spec fn field_broken(self, field: Field) -> bool {
        match field {
            Field::FirstName => self.first_name,
            Field::LastName => self.last_name,
            Field::Description => self.description,
            Field::Email => self.email,
            Field::PhoneNumber => self.phone_number,
            Field::CompanyName => self.company_name,
            Field::Password => self.password,
            Field::File => self.file,
        }
    }

    /// Whether `violation` is among the broken rules.
    pub open spec fn holds(self, violation: Violation) -> bool {
        match violation {
            Violation::Field(field, rule) => self.field_broken(field) && rule == rule_of(field),
            Violation::Schema(entity) => self.schema == Some(entity),
        }
    }

    /// The broken rules in a fixed order: the fields in the order of their
    /// flags, then the rule across fields.
    pub open spec fn listing(self) -> Seq<Violation> {
        let fields = appended_if(
            appended_if(
                appended_if(
                    appended_if(
                        appended_if(
                            appended_if(
                                appended_if(
                                    appended_if(
                                        Seq::empty(),
                                        self.first_name,
                                        Violation::Field(Field::FirstName, Rule::Length),
                                    ),
                                    self.last_name,
                                    Violation::Field(Field::LastName, Rule::Length),
                                ),
                                self.description,
                                Violation::Field(Field::Description, Rule::Length),
                            ),
                            self.email,
                            Violation::Field(Field::Email, Rule::Email),
                        ),
                        self.phone_number,
                        Violation::Field(Field::PhoneNumber, Rule::Phone),
                    ),
                    self.company_name,
                    Violation::Field(Field::CompanyName, Rule::Length),
                ),
                self.password,
                Violation::Field(Field::Password, Rule::Length),
            ),
            self.file,
            Violation::Field(Field::File, Rule::Required),
        );
        match self.schema {
            Some(entity) => fields.push(Violation::Schema(entity)),
            None => fields,
        }
    }

    /// An outcome with no rule broken.
    pub fn new() -> (errors: ValidationErrors)
        ensures
            errors == ValidationErrors::none(),
    {
        ValidationErrors {
            first_name: false,
            last_name: false,
            description: false,
            email: false,
            phone_number: false,
            company_name: false,
            password: false,
            file: false,
            schema: None,
        }
    }

    /// Whether no rule is broken.
    pub fn is_empty(&self) -> (empty: bool)
        ensures
            empty == (*self == ValidationErrors::none()),
    {
        !self.first_name && !self.last_name && !self.description && !self.email
            && !self.phone_number && !self.company_name && !self.password && !self.file
            && self.schema.is_none()
    }

    /// The broken rules, one entry for each.
    pub fn violations(&self) -> (list: Vec<Violation>)
        ensures
            list@ == self.listing(),
    {
        let mut list: Vec<Violation> = Vec::new();
        if self.first_name {
            list.push(Violation::Field(Field::FirstName, Rule::Length));
        }
        if self.last_name {
            list.push(Violation::Field(Field::LastName, Rule::Length));
        }
        if self.description {
            list.push(Violation::Field(Field::Description, Rule::Length));
        }
        if self.email {
            list.push(Violation::Field(Field::Email, Rule::Email));
        }
        if self.phone_number {
            list.push(Violation::Field(Field::PhoneNumber, Rule::Phone));
        }
        if self.company_name {
            list.push(Violation::Field(Field::CompanyName, Rule::Length));
        }
        if self.password {
            list.push(Violation::Field(Field::Password, Rule::Length));
        }
        if self.file {
            list.push(Violation::Field(Field::File, Rule::Required));
        }
        match self.schema {
            Some(entity) => {
                list.push(Violation::Schema(entity));
            },
            None => {},
        }
        list
    }

    /// The broken rules in words.
    pub fn message(&self) -> (text: String)
        ensures
            text@ == joined(self.listing()),
    {
        let list = self.violations();
        let mut text = String::new();
        let mut i: usize = 0;
        proof {
            assert(list@.take(0) =~= Seq::<Violation>::empty());
        }
        while i < list.len()
            invariant
                i <= list.len(),
                text@ == joined(list@.take(i as int)),
            decreases list.len() - i,
        {
            proof {
                let now = list@.take(i + 1);
                assert(now.drop_last() =~= list@.take(i as int));
                assert(now.last() == list@[i as int]);
                if i == 0 {
                    assert(now[0] == list@[0]);
                    assert(Seq::<char>::empty() + violation_text(list@[0]) =~= violation_text(
                        list@[0],
                    ));
                }
            }
            if i > 0 {
                text.append("; ");
            }
            let words = list[i].describe();
            text.append(words.as_str());
            i = i + 1;
        }
        proof {
            assert(list@.take(list.len() as int) =~= list@);
        }
        text
    }

    /// The outcome of a validation that found these broken rules: valid if
    /// there is none, else all of them.
    pub open spec fn verdict(self) -> Result<(), ValidationErrors> {
        if self == ValidationErrors::none() {
            Ok(())
        } else {
            Err(self)
        }
    }

    /// Turns the broken rules found into the outcome of the validation.
    pub fn into_result(self) -> (outcome: Result<(), ValidationErrors>)
        ensures
            outcome == self.verdict(),
    {
        if self.is_empty() {
            Ok(())
        } else {
            Err(self)
        }
    }
}

/// A listed violation is one that holds, and every one that holds is
/// listed.
pub proof fn law_listing_is_complete(errors: ValidationErrors, violation: Violation)
    ensures
        errors.listing().contains(violation) <==> errors.holds(violation),
        errors.listing().len() == 0 <==> errors == ValidationErrors::none(),
{
    let a = appended_if(
        Seq::empty(),
        errors.first_name,
        Violation::Field(Field::FirstName, Rule::Length),
    );
    let b = appended_if(a, errors.last_name, Violation::Field(Field::LastName, Rule::Length));
    let c = appended_if(b, errors.description, Violation::Field(Field::Description, Rule::Length));
    let d = appended_if(c, errors.email, Violation::Field(Field::Email, Rule::Email));
    let e = appended_if(d, errors.phone_number, Violation::Field(Field::PhoneNumber, Rule::Phone));
    let f = appended_if(e, errors.company_name, Violation::Field(Field::CompanyName, Rule::Length));
    let g = appended_if(f, errors.password, Violation::Field(Field::Password, Rule::Length));
    let h = appended_if(g, errors.file, Violation::Field(Field::File, Rule::Required));
    lemma_appended_if(Seq::empty(), errors.first_name, Violation::Field(Field::FirstName, Rule::Length), violation);
    lemma_appended_if(a, errors.last_name, Violation::Field(Field::LastName, Rule::Length), violation);
    lemma_appended_if(b, errors.description, Violation::Field(Field::Description, Rule::Length), violation);
    lemma_appended_if(c, errors.email, Violation::Field(Field::Email, Rule::Email), violation);
    lemma_appended_if(d, errors.phone_number, Violation::Field(Field::PhoneNumber, Rule::Phone), violation);
    lemma_appended_if(e, errors.company_name, Violation::Field(Field::CompanyName, Rule::Length), violation);
    lemma_appended_if(f, errors.password, Violation::Field(Field::Password, Rule::Length), violation);
    lemma_appended_if(g, errors.file, Violation::Field(Field::File, Rule::Required), violation);
    match errors.schema {
        Some(entity) => {
            lemma_appended_if(h, true, Violation::Schema(entity), violation);
        },
        None => {},
    }
    assert(!Seq::<Violation>::empty().contains(violation));
}

/// What a conditional append holds: what the list held, and the appended
/// violation if the flag is set.
proof fn lemma_appended_if(list: Seq<Violation>, broken: bool, added: Violation, violation: Violation)
    ensures
        appended_if(list, broken, added).contains(violation) <==> (list.contains(violation) || (
        broken && added == violation)),
        appended_if(list, broken, added).len() >= list.len(),
        broken ==> appended_if(list, broken, added).len() > 0,
{
    if broken {
        let longer = list.push(added);
        assert(longer[list.len() as int] == added);
        if list.contains(violation) {
            let i = choose|i: int| 0 <= i < list.len() && list[i] == violation;
            assert(longer[i] == violation);
        }
    }
}

/// Whether a text has at least `min` and at most `max` characters.
pub open spec fn length_within(text: Seq<char>, min: nat, max: nat) -> bool {
    min <= text.len() <= max
}

/// Whether a text is an e-mail address, as the validation library judges it.
pub uninterp spec fn is_email(text: Seq<char>) -> bool;

/// Whether a text is a phone number, as the validation library judges it.
pub uninterp spec fn is_phone(text: Seq<char>) -> bool;

/// Checks the length of a text, counted in characters.
pub fn check_length(text: &str, min: usize, max: usize) -> (ok: bool)
    ensures
        ok == length_within(text@, min as nat, max as nat),
{
    let length = text.unicode_len();
    min <= length && length <= max
}

/// Asks `validator::validate_email` whether the text is an e-mail address.
/// The contract only names the answer: it depends on the text alone.
#[verifier::external_body]
pub(crate) fn check_email(text: &str) -> (ok: bool)
    ensures
        ok == is_email(text@),
{
    validator::validate_email(text)
}

/// Asks `validator::validate_phone` whether the text is a phone number. The
/// contract only names the answer: it depends on the text alone.
#[verifier::external_body]
pub(crate) fn check_phone(text: &str) -> (ok: bool)
    ensures
        ok == is_phone(text@),
{
    validator::validate_phone(text)
}

} // verus!
