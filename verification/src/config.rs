//! The configuration in `segatools.ini`.

use crate::journal::Journal;
use crate::text;
use crate::types;
use crate::types::RichPresenceConfig;
use configparser::ini::Ini;
use vstd::prelude::*;
use vstd::string::*;

verus! {

/// The file that holds the configuration.
pub const SEGATOOLS_INI_FILE_NAME: &'static str = "segatools.ini";

/// The section of the file that is read.
pub const CONFIG_SECTION: &'static str = "chunirichpresence";

/// `configparser::ini::Ini`, a document of sections with keys and values.
#[verifier::external_type_specification]
#[verifier::external_body]
pub struct ExIni(Ini);

/// What a document holds: the sections, each with its keys and what each key is set to.
pub uninterp spec fn ini_contents(ini: Ini) -> Map<Seq<char>, Map<Seq<char>, Option<Seq<char>>>>;

/// Whether a look-up in a document that finds no value goes on in the default section.
pub uninterp spec fn ini_cascades(ini: Ini) -> bool;

/// What `Ini::read` makes of a text: the contents of the document, or the error in words.
pub uninterp spec fn ini_document(text: Seq<char>) -> Result<
    Map<Seq<char>, Map<Seq<char>, Option<Seq<char>>>>,
    Seq<char>,
>;

/// `Ini::read` on a document made by `Ini::new`. The outcome is a function of the text; the document
/// does not look values up in the default section.
#[verifier::external_body]
fn ini_read(text: String) -> (r: Result<Ini, String>)
    ensures
        match r {
            Ok(ini) => {
                &&& ini_document(text@) is Ok
                &&& ini_document(text@)->Ok_0 == ini_contents(ini)
                &&& !ini_cascades(ini)
            },
            Err(error) => {
                &&& ini_document(text@) is Err
                &&& ini_document(text@)->Err_0 == error@
            },
        },
{
    let mut ini = Ini::new();
    match ini.read(text) {
        Ok(_) => Ok(ini),
        Err(error) => Err(error),
    }
}

/// Whether `s` is ASCII without upper-case letters.
pub open spec fn is_lower_ascii(s: Seq<char>) -> bool {
    forall|i: int| 0 <= i < s.len() ==> (#[trigger] s[i] as int) < 128 && !('A' <= s[i] <= 'Z')
}

/// The value of a key in a section.
pub open spec fn ini_value(
    contents: Map<Seq<char>, Map<Seq<char>, Option<Seq<char>>>>,
    section: Seq<char>,
    key: Seq<char>,
) -> Option<Seq<char>> {
    if contents.contains_key(section) && contents[section].contains_key(key) {
        contents[section][key]
    } else {
        None
    }
}

/// `Ini::get`: the value of a key in a section. Names that are ASCII without upper-case letters are
/// looked up as they stand.
#[verifier::external_body]
fn ini_get(ini: &Ini, section: &str, key: &str) -> (r: Option<String>)
    requires
        !ini_cascades(*ini),
        is_lower_ascii(section@),
        is_lower_ascii(key@),
    ensures
        match r {
            Some(value) => ini_value(ini_contents(*ini), section@, key@) == Some(value@),
            None => ini_value(ini_contents(*ini), section@, key@) is None,
        },
{
    ini.get(section, key)
}

/// A value as it counts: without white space at the ends, without a pair of double quotes round it,
/// and none at all if nothing is left.
pub open spec fn sanitized(value: Option<Seq<char>>) -> Option<Seq<char>> {
    match value {
        None => None,
        Some(value) => {
            let bare = text::trimmed(value);
            let quoted = bare.len() >= 2 && bare.first() == '"' && bare.last() == '"';
            let inner = if quoted {
                text::trimmed(bare.subrange(1, bare.len() - 1))
            } else {
                bare
            };
            if inner.len() == 0 {
                None
            } else {
                Some(inner)
            }
        },
    }
}

/// The view of an optional text.
pub open spec fn optional_text(value: Option<String>) -> Option<Seq<char>> {
    match value {
        Some(value) => Some(value@),
        None => None,
    }
}

/// A value as it counts.
pub fn sanitize_ini_value(value: Option<String>) -> (r: Option<String>)
    ensures
        optional_text(r) == sanitized(optional_text(value)),
{
    match value {
        None => None,
        Some(value) => {
            let bare = text::trim(value.as_str());
            if bare.is_empty() {
                return None;
            }
            let chars = text::chars_of(bare);
            if chars.len() >= 2 && chars[0] == '"' && chars[chars.len() - 1] == '"' {
                let inner = text::trim(bare.substring_char(1, chars.len() - 1));
                if inner.is_empty() {
                    None
                } else {
                    Some(inner.to_owned())
                }
            } else {
                Some(bare.to_owned())
            }
        },
    }
}

/// The values of the section that is read.
pub struct IniValues {
    pub logo_url: Option<String>,
    pub game_name: Option<String>,
    pub discord_app_id: Option<String>,
    pub show_rating: Option<String>,
}

/// `value` if it is there, else `fallback`.
pub open spec fn value_or(value: Option<Seq<char>>, fallback: Seq<char>) -> Seq<char> {
    match value {
        Some(value) => value,
        None => fallback,
    }
}

/// The configuration that these values make: each sanitized, and the built-in one in place of a
/// missing one. The rating is shown unless it is turned off with `0`.
pub open spec fn configured(
    logo_url: Option<Seq<char>>,
    game_name: Option<Seq<char>>,
    discord_app_id: Option<Seq<char>>,
    show_rating: Option<Seq<char>>,
) -> types::ConfigView {
    types::ConfigView {
        logo_url: value_or(sanitized(logo_url), types::DEFAULT_LOGO_URL@),
        game_name: value_or(sanitized(game_name), types::DEFAULT_GAME_NAME@),
        discord_app_id: value_or(sanitized(discord_app_id), types::DEFAULT_DISCORD_APP_ID@),
        show_rating: sanitized(show_rating) != Some("0"@),
    }
}

/// The configuration that these values make.
pub fn presence_config(values: IniValues) -> (r: RichPresenceConfig)
    ensures
        r@ == configured(
            optional_text(values.logo_url),
            optional_text(values.game_name),
            optional_text(values.discord_app_id),
            optional_text(values.show_rating),
        ),
{
    let mut config = RichPresenceConfig::default();
    if let Some(value) = sanitize_ini_value(values.logo_url) {
        config.logo_url = value;
    }
    if let Some(value) = sanitize_ini_value(values.game_name) {
        config.game_name = value;
    }
    if let Some(value) = sanitize_ini_value(values.discord_app_id) {
        config.discord_app_id = value;
    }
    if let Some(value) = sanitize_ini_value(values.show_rating) {
        config.show_rating = !text::same_text(value.as_str(), "0");
    }
    config
}

/// The configuration that a document makes.
pub open spec fn document_config(
    contents: Map<Seq<char>, Map<Seq<char>, Option<Seq<char>>>>,
) -> types::ConfigView {
    configured(
        ini_value(contents, CONFIG_SECTION@, "logo_url"@),
        ini_value(contents, CONFIG_SECTION@, "game_name"@),
        ini_value(contents, CONFIG_SECTION@, "discord_app_id"@),
        ini_value(contents, CONFIG_SECTION@, "show_rating"@),
    )
}

/// The document in a file, from the text of the file or the reason why it could not be read.
pub open spec fn file_document(file: Result<Seq<char>, Seq<char>>) -> Result<
    Map<Seq<char>, Map<Seq<char>, Option<Seq<char>>>>,
    Seq<char>,
> {
    match file {
        Ok(text) => ini_document(text),
        Err(reason) => Err(reason),
    }
}

/// The line on a configuration file that could not be used.
pub open spec fn config_failure_line(path: Seq<char>, reason: Seq<char>) -> Seq<char> {
    "failed to read "@ + path + " (couldn't read "@ + path + ": "@ + reason + "), using defaults"@
}

/// The line on a configuration that was loaded.
pub open spec fn config_line(path: Seq<char>, config: types::ConfigView) -> Seq<char> {
    "Loaded config from "@ + path + " (game_name='"@ + config.game_name + "', logo_url='"@
        + config.logo_url + "', discord_app_id='"@ + config.discord_app_id + "', show_rating="@
        + text::bool_text(config.show_rating) + ")"@
}

/// The values of the section that is read.
fn section_values(ini: &Ini) -> (r: IniValues)
    requires
        !ini_cascades(*ini),
    ensures
        optional_text(r.logo_url) == ini_value(ini_contents(*ini), CONFIG_SECTION@, "logo_url"@),
        optional_text(r.game_name) == ini_value(ini_contents(*ini), CONFIG_SECTION@, "game_name"@),
        optional_text(r.discord_app_id) == ini_value(
            ini_contents(*ini),
            CONFIG_SECTION@,
            "discord_app_id"@,
        ),
        optional_text(r.show_rating) == ini_value(
            ini_contents(*ini),
            CONFIG_SECTION@,
            "show_rating"@,
        ),
{
    proof {
        reveal_strlit("chunirichpresence");
        reveal_strlit("logo_url");
        reveal_strlit("game_name");
        reveal_strlit("discord_app_id");
        reveal_strlit("show_rating");
    }
    IniValues {
        logo_url: ini_get(ini, CONFIG_SECTION, "logo_url"),
        game_name: ini_get(ini, CONFIG_SECTION, "game_name"),
        discord_app_id: ini_get(ini, CONFIG_SECTION, "discord_app_id"),
        show_rating: ini_get(ini, CONFIG_SECTION, "show_rating"),
    }
}

/// The configuration in the file at `path`, from the text of the file or the reason why it could not
/// be read. A file that cannot be used gives the built-in configuration.
pub fn load_presence_config(path: &str, file: Result<String, String>, log: &mut Journal) -> (r:
    RichPresenceConfig)
    ensures
        match file_document(
            match file {
                Ok(text) => Ok(text@),
                Err(reason) => Err(reason@),
            },
        ) {
            Ok(contents) => {
                &&& r@ == document_config(contents)
                &&& final(log)@ == old(log)@.push(config_line(path@, document_config(contents)))
            },
            Err(reason) => {
                &&& r@ == types::default_config()
                &&& final(log)@ == old(log)@.push(config_failure_line(path@, reason))
            },
        },
{
    let document = match file {
        Ok(text) => ini_read(text),
        Err(reason) => Err(reason),
    };
    match document {
        Err(reason) => {
            log.record(
                "failed to read ".to_owned().concat(path).concat(" (couldn't read ").concat(
                    path,
                ).concat(": ").concat(reason.as_str()).concat("), using defaults"),
            );
            RichPresenceConfig::default()
        },
        Ok(ini) => {
            let config = presence_config(section_values(&ini));
            let mut line: String = "Loaded config from ".to_owned().concat(path).concat(
                " (game_name='",
            ).concat(config.game_name.as_str()).concat("', logo_url='").concat(
                config.logo_url.as_str(),
            ).concat("', discord_app_id='").concat(config.discord_app_id.as_str()).concat(
                "', show_rating=",
            );
            text::append_bool(&mut line, config.show_rating);
            line.append(")");
            log.record(line);
            config
        },
    }
}

/// What is left of a value is never empty, and has no white space at the ends.
pub proof fn law_sanitized_values_are_bare(value: Option<Seq<char>>)
    ensures
        sanitized(value) matches Some(bare) ==> {
            &&& bare.len() > 0
            &&& !text::is_white_space(bare.first())
            &&& !text::is_white_space(bare.last())
        },
{
    if let Some(value) = value {
        let bare = text::trimmed(value);
        text::law_trimmed_has_no_space_at_the_ends(value);
        text::law_trimmed_has_no_space_at_the_ends(bare.subrange(1, bare.len() - 1));
    }
}

/// Each setting is the sanitized value of its key, whatever the other keys hold; a setting whose
/// value is missing or empty is the built-in one.
pub proof fn law_settings_are_independent(
    a: Map<Seq<char>, Map<Seq<char>, Option<Seq<char>>>>,
    b: Map<Seq<char>, Map<Seq<char>, Option<Seq<char>>>>,
)
    ensures
        ini_value(a, CONFIG_SECTION@, "logo_url"@) == ini_value(b, CONFIG_SECTION@, "logo_url"@)
            ==> document_config(a).logo_url == document_config(b).logo_url,
        ini_value(a, CONFIG_SECTION@, "game_name"@) == ini_value(b, CONFIG_SECTION@, "game_name"@)
            ==> document_config(a).game_name == document_config(b).game_name,
        ini_value(a, CONFIG_SECTION@, "discord_app_id"@) == ini_value(
            b,
            CONFIG_SECTION@,
            "discord_app_id"@,
        ) ==> document_config(a).discord_app_id == document_config(b).discord_app_id,
        ini_value(a, CONFIG_SECTION@, "show_rating"@) == ini_value(
            b,
            CONFIG_SECTION@,
            "show_rating"@,
        ) ==> document_config(a).show_rating == document_config(b).show_rating,
        sanitized(ini_value(a, CONFIG_SECTION@, "logo_url"@)) is None
            ==> document_config(a).logo_url == types::DEFAULT_LOGO_URL@,
        sanitized(ini_value(a, CONFIG_SECTION@, "game_name"@)) is None
            ==> document_config(a).game_name == types::DEFAULT_GAME_NAME@,
        sanitized(ini_value(a, CONFIG_SECTION@, "discord_app_id"@)) is None
            ==> document_config(a).discord_app_id == types::DEFAULT_DISCORD_APP_ID@,
        sanitized(ini_value(a, CONFIG_SECTION@, "show_rating"@)) is None
            ==> document_config(a).show_rating,
{
}

/// Whether `s` neither starts nor ends with white space.
pub open spec fn has_bare_ends(s: Seq<char>) -> bool {
    s.len() > 0 ==> !text::is_white_space(s.first()) && !text::is_white_space(s.last())
}

/// White space round a value does not count; a value that is nothing else is none.
pub proof fn law_space_round_a_value_does_not_count(
    front: Seq<char>,
    value: Seq<char>,
    back: Seq<char>,
)
    requires
        text::all_white_space(front),
        text::all_white_space(back),
        has_bare_ends(value),
        value.len() < 2 || value.first() != '"' || value.last() != '"',
    ensures
        value.len() > 0 ==> sanitized(Some(front + value + back)) == Some(value),
        value.len() == 0 ==> sanitized(Some(front + value + back)) is None,
        sanitized(None) is None,
{
    text::law_trimming_leaves_what_the_space_surrounds(front, value, back);
}

/// A pair of double quotes round a value does not count, nor does white space outside or inside the
/// pair; only one pair is taken away, and a pair with nothing else inside is no value.
pub proof fn law_quotes_round_a_value_do_not_count(
    front: Seq<char>,
    before: Seq<char>,
    value: Seq<char>,
    after: Seq<char>,
    back: Seq<char>,
)
    requires
        text::all_white_space(front),
        text::all_white_space(before),
        text::all_white_space(after),
        text::all_white_space(back),
        has_bare_ends(value),
    ensures
        ({
            let quoted = seq!['"'] + (before + value + after) + seq!['"'];
            &&& value.len() > 0 ==> sanitized(Some(front + quoted + back)) == Some(value)
            &&& value.len() == 0 ==> sanitized(Some(front + quoted + back)) is None
        }),
{
    let inside = before + value + after;
    let quoted = seq!['"'] + inside + seq!['"'];
    assert(!text::is_white_space('"'));
    assert(quoted.first() == '"' && quoted.last() == '"');
    text::law_trimming_leaves_what_the_space_surrounds(front, quoted, back);
    assert(quoted.subrange(1, quoted.len() - 1) =~= inside);
    text::law_trimming_leaves_what_the_space_surrounds(before, value, after);
}

/// What the file sets is what counts: a setting whose key has a value in the section
/// `[chunirichpresence]`, and of which something is left when it is sanitized, is that. The rating is
/// hidden by `0` and by nothing else.
pub proof fn law_settings_that_are_there_count(
    contents: Map<Seq<char>, Map<Seq<char>, Option<Seq<char>>>>,
    written: Seq<char>,
    value: Seq<char>,
)
    requires
        contents.contains_key("chunirichpresence"@),
        sanitized(Some(written)) == Some(value),
    ensures
        ({
            let section = contents["chunirichpresence"@];
            let config = document_config(contents);
            &&& section.contains_key("logo_url"@) && section["logo_url"@] == Some(written)
                ==> config.logo_url == value
            &&& section.contains_key("game_name"@) && section["game_name"@] == Some(written)
                ==> config.game_name == value
            &&& section.contains_key("discord_app_id"@) && section["discord_app_id"@] == Some(
                written,
            ) ==> config.discord_app_id == value
            &&& section.contains_key("show_rating"@) && section["show_rating"@] == Some(written)
                ==> (config.show_rating <==> value != "0"@)
        }),
{
}

/// What the file does not set is built in: without the section, and for a key that is not in it or
/// has no value, the setting is the default.
pub proof fn law_settings_that_are_missing_are_built_in(
    contents: Map<Seq<char>, Map<Seq<char>, Option<Seq<char>>>>,
)
    ensures
        ({
            let section = contents["chunirichpresence"@];
            let there = contents.contains_key("chunirichpresence"@);
            let config = document_config(contents);
            &&& !there ==> config == types::default_config()
            &&& there && (!section.contains_key("logo_url"@) || section["logo_url"@] is None)
                ==> config.logo_url == "https://chunithm.org/assets/logo.png"@
            &&& there && (!section.contains_key("game_name"@) || section["game_name"@] is None)
                ==> config.game_name == "Chunithm"@
            &&& there && (!section.contains_key("discord_app_id"@)
                || section["discord_app_id"@] is None) ==> config.discord_app_id
                == "1482780703128289493"@
            &&& there && (!section.contains_key("show_rating"@) || section["show_rating"@] is None)
                ==> config.show_rating
        }),
{
}

/// A file that was read gives the document in its text, one that was not the reason.
pub proof fn law_a_file_gives_its_document(content: Seq<char>, reason: Seq<char>)
    ensures
        file_document(Ok(content)) == ini_document(content),
        file_document(Err(reason)) is Err && file_document(Err(reason))->Err_0 == reason,
{
}

/// The log names the file and either each setting in use or the reason why the defaults are.
pub proof fn law_the_configuration_is_logged(
    path: Seq<char>,
    reason: Seq<char>,
    config: types::ConfigView,
)
    ensures
        config_failure_line(path, reason) == "failed to read "@ + path + " (couldn't read "@ + path
            + ": "@ + reason + "), using defaults"@,
        config_line(path, config) == "Loaded config from "@ + path + " (game_name='"@
            + config.game_name + "', logo_url='"@ + config.logo_url + "', discord_app_id='"@
            + config.discord_app_id + "', show_rating="@ + text::bool_text(config.show_rating)
            + ")"@,
{
}

} // verus!
