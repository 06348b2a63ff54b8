use vstd::prelude::*;

verus! {

/// A parsed configuration document: tables, strings, arrays and other scalars.
///
/// A table keeps its entries in document order; keys are looked up from the front.
pub enum ConfigValue {
    Str(String),
    Integer(i64),
    Boolean(bool),
    Array(Vec<ConfigValue>),
    Table(Vec<ConfigEntry>),
    /// A float or a date-time: nothing here reads their contents.
    Other,
}

/// One `key = value` pair of a table.
pub struct ConfigEntry {
    pub key: String,
    pub value: ConfigValue,
}

/// Why a lookup in the configuration failed.
#[derive(Debug)]
pub enum TomlError {
    SectionNotFound(String),
    LanguageNotFound(String),
    InvalidType(String),
}

/// The abstract form of a `TomlError`.
pub enum TomlErrorView {
    SectionNotFound(Seq<char>),
    LanguageNotFound(Seq<char>),
    InvalidType(Seq<char>),
}

impl View for TomlError {
    type V = TomlErrorView;

    open spec fn view(&self) -> TomlErrorView {
        match self {
            TomlError::SectionNotFound(n) => TomlErrorView::SectionNotFound(n@),
            TomlError::LanguageNotFound(n) => TomlErrorView::LanguageNotFound(n@),
            TomlError::InvalidType(n) => TomlErrorView::InvalidType(n@),
        }
    }
}

/// The message shown to the user for an error.
pub open spec fn error_message(e: TomlErrorView) -> Seq<char> {
    match e {
        TomlErrorView::SectionNotFound(n) => "\""@ + n
            + "\" section could not be found in your config. Add it with ["@ + n + "]"@,
        TomlErrorView::LanguageNotFound(n) => "The language \""@ + n
            + "\" could not be found in your config."@,
        TomlErrorView::InvalidType(n) => "The value of \""@ + n
            + "\" is an invalid type, expected String"@,
    }
}

impl TomlError {
    /// The message shown to the user.
    pub fn to_string(&self) -> (r: String)
        ensures
            r@ == error_message(self@),
    {
        match self {
            TomlError::SectionNotFound(n) => {
                let mut s = String::from_str("\"");
                s.append(n.as_str());
                s.append("\" section could not be found in your config. Add it with [");
                s.append(n.as_str());
                s.append("]");
                s
            },
            TomlError::LanguageNotFound(n) => {
                let mut s = String::from_str("The language \"");
                s.append(n.as_str());
                s.append("\" could not be found in your config.");
                s
            },
            TomlError::InvalidType(n) => {
                let mut s = String::from_str("The value of \"");
                s.append(n.as_str());
                s.append("\" is an invalid type, expected String");
                s
            },
        }
    }
}

/// The two phases in which configured commands run.
#[derive(Debug, Clone, Copy, PartialEq, Eq, Structural)]
pub enum CommandVariants {
    Before,
    After,
}

/// Name of the configuration section that lists the commands of a phase.
pub open spec fn section_name(variant: CommandVariants) -> Seq<char> {
    match variant {
        CommandVariants::Before => "commands-before"@,
        CommandVariants::After => "commands-after"@,
    }
}

impl CommandVariants {
    /// The section name of this phase.
    pub fn to_string(&self) -> (r: String)
        ensures
            r@ == section_name(*self),
    {
        match self {
            CommandVariants::Before => String::from_str("commands-before"),
            CommandVariants::After => String::from_str("commands-after"),
        }
    }
}

/// The value stored under `key` among `entries`: the first entry with that key.
pub open spec fn entry_lookup(entries: Seq<ConfigEntry>, key: Seq<char>) -> Option<ConfigValue>
    decreases entries.len(),
{
    if entries.len() == 0 {
        None
    } else if entries[0].key@ == key {
        Some(entries[0].value)
    } else {
        entry_lookup(entries.drop_first(), key)
    }
}

/// The value under `key` when `v` is a table.
pub open spec fn get_value(v: ConfigValue, key: Seq<char>) -> Option<ConfigValue> {
    match v {
        ConfigValue::Table(entries) => entry_lookup(entries@, key),
        _ => None,
    }
}

/// The entries of the section `name` of `doc`, when it is present and is a table.
pub open spec fn section(doc: ConfigValue, name: Seq<char>) -> Option<Seq<ConfigEntry>> {
    match get_value(doc, name) {
        Some(ConfigValue::Table(entries)) => Some(entries@),
        _ => None,
    }
}

/// The strings of `v`, when it is an array that holds strings only.
pub open spec fn string_list(v: ConfigValue) -> Option<Seq<Seq<char>>> {
    match v {
        ConfigValue::Array(items) => if forall|i: int|
            0 <= i < items@.len() ==> (#[trigger] items@[i]) is Str {
            Some(items@.map_values(|item: ConfigValue| item->Str_0@))
        } else {
            None
        },
        _ => None,
    }
}

/// The checks that every lookup makes first: the root is a table holding `templates`.
pub open spec fn base_checks(doc: ConfigValue) -> Result<(), TomlErrorView> {
    if !(doc is Table) {
        Err(TomlErrorView::SectionNotFound("root"@))
    } else if get_value(doc, "templates"@) is None {
        Err(TomlErrorView::SectionNotFound("templates"@))
    } else {
        Ok(())
    }
}

/// Where the template of `lang` lives, or why that cannot be told.
pub open spec fn lang_location(doc: ConfigValue, lang: Seq<char>) -> Result<
    Seq<char>,
    TomlErrorView,
> {
    match base_checks(doc) {
        Err(e) => Err(e),
        Ok(_) => match section(doc, "templates"@) {
            None => Err(TomlErrorView::SectionNotFound("templates"@)),
            Some(templates) => match entry_lookup(templates, lang) {
                None => Err(TomlErrorView::LanguageNotFound(lang)),
                Some(ConfigValue::Str(s)) => Ok(s@),
                Some(_) => Err(TomlErrorView::InvalidType(lang)),
            },
        },
    }
}

/// The commands of `lang` for one phase; `None` where none are configured in a usable form.
pub open spec fn commands_of(doc: ConfigValue, lang: Seq<char>, variant: CommandVariants) -> Result<
    Option<Seq<Seq<char>>>,
    TomlErrorView,
> {
    match base_checks(doc) {
        Err(e) => Err(e),
        Ok(_) => match section(doc, section_name(variant)) {
            None => Ok(None),
            Some(commands) => match entry_lookup(commands, lang) {
                None => Ok(None),
                Some(v) => Ok(string_list(v)),
            },
        },
    }
}

/// The views of a sequence of strings.
pub open spec fn views(v: Seq<String>) -> Seq<Seq<char>> {
    v.map_values(|s: String| s@)
}

/// Finds the value stored under `key` among `entries`.
fn find_entry<'a>(entries: &'a Vec<ConfigEntry>, key: &String) -> (r: Option<&'a ConfigValue>)
    ensures
        r matches Some(v) ==> entry_lookup(entries@, key@) == Some(*v),
        r is None ==> entry_lookup(entries@, key@) is None,
{
    let mut i: usize = 0;
    assert(entries@.subrange(0, entries@.len() as int) =~= entries@);
    while i < entries.len()
        invariant
            i <= entries@.len(),
            entry_lookup(entries@, key@) == entry_lookup(entries@.subrange(i as int, entries@.len() as int), key@),
        decreases entries.len() - i,
    {
        let ghost rest = entries@.subrange(i as int, entries@.len() as int);
        if entries[i].key == *key {
            return Some(&entries[i].value);
        }
        assert(rest.drop_first() =~= entries@.subrange(i + 1, entries@.len() as int));
        i = i + 1;
    }
    None
}

/// Looks `name` up in `v` and returns the table stored there.
fn get_table<'a>(v: &'a ConfigValue, name: &String) -> (r: Result<&'a Vec<ConfigEntry>, TomlError>)
    ensures
        match r {
            Ok(entries) => section(*v, name@) == Some(entries@),
            Err(e) => section(*v, name@) is None && e@ == TomlErrorView::SectionNotFound(name@),
        },
{
    match v {
        ConfigValue::Table(entries) => match find_entry(entries, name) {
            Some(ConfigValue::Table(inner)) => Ok(inner),
            _ => Err(TomlError::SectionNotFound(name.clone())),
        },
        _ => Err(TomlError::SectionNotFound(name.clone())),
    }
}

/// Makes the checks that every lookup starts with.
fn base_toml_checks(doc: &ConfigValue) -> (r: Result<(), TomlError>)
    ensures
        match r {
            Ok(_) => base_checks(*doc) is Ok,
            Err(e) => base_checks(*doc) == Err::<(), TomlErrorView>(e@),
        },
{
    match doc {
        ConfigValue::Table(entries) => {
            let templates = String::from_str("templates");
            if find_entry(entries, &templates).is_none() {
                return Err(TomlError::SectionNotFound(templates));
            }
            Ok(())
        },
        _ => Err(TomlError::SectionNotFound(String::from_str("root"))),
    }
}

/// Reads the string stored under `lang` in a table.
fn extract_language_value(table: &Vec<ConfigEntry>, lang: &String) -> (r: Result<String, TomlError>)
    ensures
        match r {
            Ok(s) => entry_lookup(table@, lang@) matches Some(ConfigValue::Str(t)) && t@ == s@,
            Err(e) => match entry_lookup(table@, lang@) {
                None => e@ == TomlErrorView::LanguageNotFound(lang@),
                Some(ConfigValue::Str(_)) => false,
                Some(_) => e@ == TomlErrorView::InvalidType(lang@),
            },
        },
{
    match find_entry(table, lang) {
        None => Err(TomlError::LanguageNotFound(lang.clone())),
        Some(ConfigValue::Str(s)) => Ok(s.clone()),
        Some(_) => Err(TomlError::InvalidType(lang.clone())),
    }
}

/// Reads the list of strings stored in `v`, when it is an array of strings.
fn extract_string_list(v: &ConfigValue) -> (r: Option<Vec<String>>)
    ensures
        match r {
            Some(list) => string_list(*v) == Some(views(list@)),
            None => string_list(*v) is None,
        },
{
    match v {
        ConfigValue::Array(items) => {
            let mut list: Vec<String> = Vec::new();
            let mut i: usize = 0;
            while i < items.len()
                invariant
                    *v == ConfigValue::Array(*items),
                    i <= items@.len(),
                    list@.len() == i,
                    forall|j: int| 0 <= j < i ==> (#[trigger] items@[j]) is Str,
                    forall|j: int| 0 <= j < i ==> (#[trigger] list@[j])@ == items@[j]->Str_0@,
                decreases items.len() - i,
            {
                match &items[i] {
                    ConfigValue::Str(s) => list.push(s.clone()),
                    _ => {
                        assert(!(items@[i as int] is Str));
                        return None;
                    },
                }
                i = i + 1;
            }
            assert(views(list@) =~= items@.map_values(|item: ConfigValue| item->Str_0@));
            Some(list)
        },
        _ => None,
    }
}

/// Where the template directory of `lang_name` lives, as the configuration says.
pub fn get_lang_location(doc: &ConfigValue, lang_name: &str) -> (r: Result<String, TomlError>)
    ensures
        match r {
            Ok(s) => lang_location(*doc, lang_name@) == Ok::<Seq<char>, TomlErrorView>(s@),
            Err(e) => lang_location(*doc, lang_name@) == Err::<Seq<char>, TomlErrorView>(e@),
        },
{
    base_toml_checks(doc)?;
    let lang = lang_name.to_owned();
    let templates = get_table(doc, &String::from_str("templates"))?;
    extract_language_value(templates, &lang)
}

/// The commands configured for `lang_name` in one phase.
///
/// Only a malformed document is an error; a missing section, a missing language or a value
/// that is not a list of strings gives `None`.
pub fn get_commands(doc: &ConfigValue, lang_name: &str, variant: CommandVariants) -> (r: Result<
    Option<Vec<String>>,
    TomlError,
>)
    ensures
        match r {
            Ok(Some(list)) => commands_of(*doc, lang_name@, variant) == Ok::<
                Option<Seq<Seq<char>>>,
                TomlErrorView,
            >(Some(views(list@))),
            Ok(None) => commands_of(*doc, lang_name@, variant) == Ok::<
                Option<Seq<Seq<char>>>,
                TomlErrorView,
            >(None),
            Err(e) => commands_of(*doc, lang_name@, variant) == Err::<
                Option<Seq<Seq<char>>>,
                TomlErrorView,
            >(e@),
        },
{
    base_toml_checks(doc)?;
    let lang = lang_name.to_owned();
    if let Ok(commands) = get_table(doc, &variant.to_string()) {
        if let Some(value) = find_entry(commands, &lang) {
            return Ok(extract_string_list(value));
        }
    }
    Ok(None)
}

/// A document whose `templates` entry is missing (or is not a table) yields no template
/// location for any language: the lookup fails naming the `templates` section.
pub proof fn lemma_missing_templates_section(doc: ConfigValue, lang: Seq<char>)
    requires
        doc is Table,
        section(doc, "templates"@) is None,
    ensures
        lang_location(doc, lang) == Err::<Seq<char>, TomlErrorView>(
            TomlErrorView::SectionNotFound("templates"@),
        ),
{
}

/// A `templates` section without the requested language makes the lookup fail naming that
/// language.
pub proof fn lemma_missing_language(doc: ConfigValue, lang: Seq<char>)
    requires
        section(doc, "templates"@) matches Some(templates) && entry_lookup(templates, lang) is None,
    ensures
        lang_location(doc, lang) == Err::<Seq<char>, TomlErrorView>(
            TomlErrorView::LanguageNotFound(lang),
        ),
{
}

/// A template location that is not a string makes the lookup fail with an invalid-type error
/// naming the language.
pub proof fn lemma_location_not_a_string(doc: ConfigValue, lang: Seq<char>)
    requires
        section(doc, "templates"@) matches Some(templates) && entry_lookup(templates, lang) matches Some(
            v,
        ) && !(v is Str),
    ensures
        lang_location(doc, lang) == Err::<Seq<char>, TomlErrorView>(
            TomlErrorView::InvalidType(lang),
        ),
{
}

/// On a document that passes the base checks, a missing command section, or a section without
/// the language, gives no commands rather than an error.
pub proof fn lemma_commands_optional(doc: ConfigValue, lang: Seq<char>, variant: CommandVariants)
    requires
        base_checks(doc) is Ok,
        match section(doc, section_name(variant)) {
            None => true,
            Some(commands) => entry_lookup(commands, lang) is None,
        },
    ensures
        commands_of(doc, lang, variant) == Ok::<Option<Seq<Seq<char>>>, TomlErrorView>(None),
{
}

} // verus!
