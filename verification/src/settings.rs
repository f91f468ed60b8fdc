//! Saving and loading the four session settings through the preference
//! table, with the two site lists carried as JSON text.

use crate::state::AppState;
use vstd::prelude::*;

verus! {

/// The JSON text that serde_json produces for a list of strings.
pub uninterp spec fn json_site_list(v: Seq<Seq<char>>) -> Seq<char>;

/// What serde_json parses a candidate site-list text into: the list when the
/// text is well-formed JSON for one, or nothing.
pub uninterp spec fn parsed_sites(s: Seq<char>) -> Option<Seq<Seq<char>>>;

/// The string views of a list of strings.
pub open spec fn views_of(v: Seq<String>) -> Seq<Seq<char>> {
    v.map_values(|s: String| s@)
}

/// The view of an optional string.
pub open spec fn view_opt(o: Option<String>) -> Option<Seq<char>> {
    match o {
        Some(s) => Some(s@),
        None => None,
    }
}

/// Relies on serde_json::to_string for Vec<String>: the JSON text is a
/// function of the strings alone, serializing a vector of strings cannot
/// fail, and serde_json::from_str parses the text back to the same vector
/// (the serde round trip).
#[verifier::external_body]
fn sites_to_json(v: &Vec<String>) -> (r: String)
    ensures
        r@ == json_site_list(views_of(v@)),
        parsed_sites(r@) == Some(views_of(v@)),
{
    serde_json::to_string(v).expect("serializing a vector of strings does not fail")
}

/// Relies on serde_json::from_str for Vec<String>: parsing is a function of
/// the text alone; ill-formed text yields None.
#[verifier::external_body]
fn sites_from_json(s: &str) -> (r: Option<Vec<String>>)
    ensures
        match parsed_sites(s@) {
            Some(v) => r matches Some(out) && views_of(out@) == v,
            None => r is None,
        },
{
    serde_json::from_str::<Vec<String>>(s).ok()
}

/// The preference table after the four settings are saved: the key of each
/// field maps to its persisted form, the image path only when present.
pub open spec fn prefs_after_save(
    p: Map<Seq<char>, Seq<char>>,
    api_key: Seq<char>,
    distraction: Seq<Seq<char>>,
    whitelist: Seq<Seq<char>>,
    image: Option<Seq<char>>,
) -> Map<Seq<char>, Seq<char>> {
    let p1 = p.insert("api_key"@, api_key).insert(
        "distraction_sites"@,
        json_site_list(distraction),
    ).insert("whitelist_sites"@, json_site_list(whitelist));
    match image {
        Some(img) => p1.insert("alert_image_path"@, img),
        None => p1,
    }
}

/// The API key a load sees in a preference table: the stored text, or empty
/// when none was ever saved.
pub open spec fn loaded_api_key(p: Map<Seq<char>, Seq<char>>) -> Seq<char> {
    if p.contains_key("api_key"@) {
        p["api_key"@]
    } else {
        Seq::<char>::empty()
    }
}

/// The site list read back from an optional stored text: its parse, or empty
/// when the text is absent or does not parse.
pub open spec fn sites_from_stored(v: Option<Seq<char>>) -> Seq<Seq<char>> {
    match v {
        Some(s) => match parsed_sites(s) {
            Some(l) => l,
            None => Seq::<Seq<char>>::empty(),
        },
        None => Seq::<Seq<char>>::empty(),
    }
}

/// The site list a load sees under `key`: the parse of the stored text, or
/// empty when the key is absent or its text does not parse.
pub open spec fn loaded_sites(p: Map<Seq<char>, Seq<char>>, key: Seq<char>) -> Seq<Seq<char>> {
    sites_from_stored(
        if p.contains_key(key) {
            Some(p[key])
        } else {
            None
        },
    )
}

/// The alert image a load sees: the stored path, or absent when none was
/// ever saved.
pub open spec fn loaded_image(p: Map<Seq<char>, Seq<char>>) -> Option<Seq<char>> {
    if p.contains_key("alert_image_path"@) {
        Some(p["alert_image_path"@])
    } else {
        None
    }
}

/// The four preference keys name four different entries.
proof fn lemma_pref_keys_distinct()
    ensures
        "api_key"@ != "distraction_sites"@,
        "api_key"@ != "whitelist_sites"@,
        "api_key"@ != "alert_image_path"@,
        "distraction_sites"@ != "whitelist_sites"@,
        "distraction_sites"@ != "alert_image_path"@,
        "whitelist_sites"@ != "alert_image_path"@,
{
    reveal_strlit("api_key");
    reveal_strlit("distraction_sites");
    reveal_strlit("whitelist_sites");
    reveal_strlit("alert_image_path");
    assert("api_key"@.len() == 7);
    assert("distraction_sites"@.len() == 17);
    assert("whitelist_sites"@.len() == 15);
    assert("alert_image_path"@.len() == 16);
}

/// Replace the four settings atomically in the session, then persist each to
/// the preference table (the image path only when present). On Ok the table
/// holds exactly the saved settings, so a load sees them again: the saved
/// and loaded fields round-trip. On Err some writes may not have happened;
/// the session fields are replaced regardless, as the in-memory update comes
/// first.
pub fn save_settings(
    state: &mut AppState,
    api_key: String,
    distraction_sites: Vec<String>,
    whitelist_sites: Vec<String>,
    alert_image_path: Option<String>,
) -> (r: Result<(), String>)
    ensures
        final (state).api_key@ == api_key@,
        final (state).distraction_sites@ == distraction_sites@,
        final (state).whitelist_sites@ == whitelist_sites@,
        final (state).alert_image_path == alert_image_path,
        final (state).tracking == old(state).tracking,
        final (state).logs() == old(state).logs(),
        r is Ok ==> final (state).prefs() == prefs_after_save(
            old(state).prefs(),
            api_key@,
            views_of(distraction_sites@),
            views_of(whitelist_sites@),
            view_opt(alert_image_path),
        ),
        r is Ok ==> {
            &&& loaded_api_key(final (state).prefs()) == api_key@
            &&& loaded_sites(final (state).prefs(), "distraction_sites"@) == views_of(
                distraction_sites@,
            )
            &&& loaded_sites(final (state).prefs(), "whitelist_sites"@) == views_of(
                whitelist_sites@,
            )
            &&& (alert_image_path matches Some(img) ==> loaded_image(final (state).prefs())
                == Some(img@))
            &&& (alert_image_path is None ==> loaded_image(final (state).prefs()) == loaded_image(
                old(state).prefs(),
            ))
        },
{
    let api_copy = api_key.clone();
    let img_copy = match &alert_image_path {
        Some(img) => Some(img.clone()),
        None => None,
    };
    state.api_key = api_key;
    state.distraction_sites = distraction_sites;
    state.whitelist_sites = whitelist_sites;
    state.alert_image_path = alert_image_path;

    state.save_preference("api_key", api_copy.as_str())?;
    let dj = sites_to_json(&state.distraction_sites);
    state.save_preference("distraction_sites", dj.as_str())?;
    let wj = sites_to_json(&state.whitelist_sites);
    state.save_preference("whitelist_sites", wj.as_str())?;
    if let Some(img) = img_copy {
        state.save_preference("alert_image_path", img.as_str())?;
    }
    proof {
        lemma_pref_keys_distinct();
    }
    Ok(())
}

/// Turn a raw stored preference text into the site list it names: the parse
/// of the text, or the empty list when the text is absent or ill-formed.
pub fn sites_from_preference(text: Option<String>) -> (r: Vec<String>)
    ensures
        views_of(r@) == sites_from_stored(view_opt(text)),
{
    match text {
        Some(s) => match sites_from_json(s.as_str()) {
            Some(v) => v,
            None => Vec::new(),
        },
        None => Vec::new(),
    }
}

/// Read the four settings back from the preference table, with defaults
/// where a key is missing or its text fails to parse: empty key, empty
/// lists, absent image.
pub fn load_settings(state: &AppState) -> (r: Result<
    (String, Vec<String>, Vec<String>, Option<String>),
    String,
>)
    ensures
        r matches Ok(out) ==> {
            &&& out.0@ == loaded_api_key(state.prefs())
            &&& views_of(out.1@) == loaded_sites(state.prefs(), "distraction_sites"@)
            &&& views_of(out.2@) == loaded_sites(state.prefs(), "whitelist_sites"@)
            &&& view_opt(out.3) == loaded_image(state.prefs())
        },
{
    let api_key = match state.load_preference("api_key")? {
        Some(s) => s,
        None => String::new(),
    };
    let distraction_sites = sites_from_preference(state.load_preference("distraction_sites")?);
    let whitelist_sites = sites_from_preference(state.load_preference("whitelist_sites")?);
    let alert_image_path = state.load_preference("alert_image_path")?;
    Ok((api_key, distraction_sites, whitelist_sites, alert_image_path))
}

} // verus!
