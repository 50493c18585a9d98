//! Activities in the form that the Discord client takes.

use crate::presence;
use crate::presence::PresenceActivity;
use discord_rich_presence::activity::{Activity, Assets};
use vstd::prelude::*;

verus! {

/// `discord_rich_presence::activity::Activity`, an activity to send to Discord.
#[verifier::external_type_specification]
#[verifier::external_body]
pub struct ExActivity<'a>(Activity<'a>);

/// `discord_rich_presence::activity::Assets`, the images of an activity.
#[verifier::external_type_specification]
#[verifier::external_body]
pub struct ExAssets<'a>(Assets<'a>);

/// The texts that are set on an activity itself, each under the name of its field.
pub uninterp spec fn activity_texts(activity: Activity<'static>) -> Map<Seq<char>, Seq<char>>;

/// The texts that are set on the assets of an activity, each under the name of its field.
pub uninterp spec fn activity_asset_texts(activity: Activity<'static>) -> Map<Seq<char>, Seq<char>>;

/// The texts that are set on assets, each under the name of its field.
pub uninterp spec fn asset_texts(assets: Assets<'static>) -> Map<Seq<char>, Seq<char>>;

/// The names of the fields that are set on an activity, of whatever kind they are.
pub uninterp spec fn activity_fields(activity: Activity<'static>) -> Set<Seq<char>>;

/// No fields at all.
pub open spec fn no_fields() -> Set<Seq<char>> {
    Set::empty()
}

/// No texts at all.
pub open spec fn no_texts() -> Map<Seq<char>, Seq<char>> {
    Map::empty()
}

/// `Activity::new`: an activity on which nothing is set.
#[verifier::external_body]
fn activity_new() -> (r: Activity<'static>)
    ensures
        activity_texts(r) == no_texts(),
        activity_asset_texts(r) == no_texts(),
        activity_fields(r) == no_fields(),
{
    Activity::new()
}

/// `Activity::name`: sets the name and leaves the rest.
#[verifier::external_body]
fn activity_name(activity: Activity<'static>, name: String) -> (r: Activity<'static>)
    ensures
        activity_texts(r) == activity_texts(activity).insert("name"@, name@),
        activity_asset_texts(r) == activity_asset_texts(activity),
        activity_fields(r) == activity_fields(activity).insert("name"@),
{
    activity.name(name)
}

/// `Activity::details`: sets the details and leaves the rest.
#[verifier::external_body]
fn activity_details(activity: Activity<'static>, details: String) -> (r: Activity<'static>)
    ensures
        activity_texts(r) == activity_texts(activity).insert("details"@, details@),
        activity_asset_texts(r) == activity_asset_texts(activity),
        activity_fields(r) == activity_fields(activity).insert("details"@),
{
    activity.details(details)
}

/// `Activity::state`: sets the state and leaves the rest.
#[verifier::external_body]
fn activity_state(activity: Activity<'static>, state: String) -> (r: Activity<'static>)
    ensures
        activity_texts(r) == activity_texts(activity).insert("state"@, state@),
        activity_asset_texts(r) == activity_asset_texts(activity),
        activity_fields(r) == activity_fields(activity).insert("state"@),
{
    activity.state(state)
}

/// `Activity::assets`: sets the assets, in place of those there were, and leaves the rest.
#[verifier::external_body]
fn activity_assets(activity: Activity<'static>, assets: Assets<'static>) -> (r: Activity<'static>)
    ensures
        activity_texts(r) == activity_texts(activity),
        activity_asset_texts(r) == asset_texts(assets),
        activity_fields(r) == activity_fields(activity).insert("assets"@),
{
    activity.assets(assets)
}

/// `Assets::new`: assets on which nothing is set.
#[verifier::external_body]
fn assets_new() -> (r: Assets<'static>)
    ensures
        asset_texts(r) == no_texts(),
{
    Assets::new()
}

/// `Assets::large_image`: sets the large image and leaves the rest.
#[verifier::external_body]
fn assets_large_image(assets: Assets<'static>, large_image: String) -> (r: Assets<'static>)
    ensures
        asset_texts(r) == asset_texts(assets).insert("large_image"@, large_image@),
{
    assets.large_image(large_image)
}

/// `Assets::large_text`: sets the text of the large image and leaves the rest.
#[verifier::external_body]
fn assets_large_text(assets: Assets<'static>, large_text: String) -> (r: Assets<'static>)
    ensures
        asset_texts(r) == asset_texts(assets).insert("large_text"@, large_text@),
{
    assets.large_text(large_text)
}

/// The texts of an activity itself.
pub open spec fn texts_of(activity: presence::ActivityView) -> Map<Seq<char>, Seq<char>> {
    let always = no_texts().insert("name"@, activity.name).insert("details"@, activity.details);
    match activity.state {
        Some(state) => always.insert("state"@, state),
        None => always,
    }
}

/// The fields of an activity: its name, its details and its assets, and its state where it has one.
pub open spec fn fields_of(activity: presence::ActivityView) -> Set<Seq<char>> {
    let always = no_fields().insert("name"@).insert("details"@).insert("assets"@);
    match activity.state {
        Some(state) => always.insert("state"@),
        None => always,
    }
}

/// The texts of the assets of an activity.
pub open spec fn asset_texts_of(activity: presence::ActivityView) -> Map<Seq<char>, Seq<char>> {
    no_texts().insert("large_image"@, activity.large_image).insert(
        "large_text"@,
        activity.large_text,
    )
}

/// The activity to send to Discord. Nothing else is set on it: no times, no party, no buttons.
pub fn discord_activity(activity: &PresenceActivity) -> (r: Activity<'static>)
    ensures
        activity_texts(r) == texts_of(activity@),
        activity_asset_texts(r) == asset_texts_of(activity@),
        activity_fields(r) == fields_of(activity@),
{
    let assets = assets_large_text(
        assets_large_image(assets_new(), activity.large_image.clone()),
        activity.large_text.clone(),
    );
    let named = activity_details(
        activity_name(activity_new(), activity.name.clone()),
        activity.details.clone(),
    );
    let complete = match &activity.state {
        Some(state) => activity_state(named, state.clone()),
        None => named,
    };
    let r = activity_assets(complete, assets);
    assert(activity_fields(r) =~= fields_of(activity@));
    r
}

/// Discord gets each text of an activity under its own name, and no others: the state only where
/// there is one.
pub proof fn law_each_text_goes_under_its_own_name(activity: presence::ActivityView)
    ensures
        texts_of(activity).contains_key("name"@) && texts_of(activity)["name"@] == activity.name,
        texts_of(activity).contains_key("details"@) && texts_of(activity)["details"@]
            == activity.details,
        match activity.state {
            Some(state) => texts_of(activity).contains_key("state"@) && texts_of(activity)["state"@]
                == state,
            None => !texts_of(activity).contains_key("state"@),
        },
        asset_texts_of(activity).contains_key("large_image"@)
            && asset_texts_of(activity)["large_image"@] == activity.large_image,
        asset_texts_of(activity).contains_key("large_text"@)
            && asset_texts_of(activity)["large_text"@] == activity.large_text,
        forall|field: Seq<char>| #[trigger]
            texts_of(activity).contains_key(field) ==> field == "name"@ || field == "details"@
                || field == "state"@,
        forall|field: Seq<char>| #[trigger]
            asset_texts_of(activity).contains_key(field) ==> field == "large_image"@ || field
                == "large_text"@,
        forall|field: Seq<char>| #[trigger]
            fields_of(activity).contains(field) <==> {
                ||| texts_of(activity).contains_key(field)
                ||| field == "assets"@
            },
{
    reveal_strlit("name");
    reveal_strlit("details");
    reveal_strlit("state");
    reveal_strlit("large_image");
    reveal_strlit("large_text");
    reveal_strlit("assets");
    assert("name"@.len() == 4 && "details"@.len() == 7 && "state"@.len() == 5);
    assert("large_image"@.len() == 11 && "large_text"@.len() == 10);
}

} // verus!
