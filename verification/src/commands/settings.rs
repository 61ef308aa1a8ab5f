//! Reading and changing the settings.
use vstd::prelude::*;
use crate::config::{key_text_fits, valid_key_text, Settings};
use crate::hex::hex_decoded;
use crate::identity::{ed25519_public_key, hex_lower_of_public, Identity};
use crate::state::AppState;

verus! {

/// Settings as the interface sees them: everything but the secret key,
/// which never leaves the app (only the id derived from it does).
pub open spec fn shown(r: Settings, s: Settings) -> bool {
    &&& r.secret_key@ == Seq::<char>::empty()
    &&& r.display_name == s.display_name
    &&& r.download_dir == s.download_dir
    &&& r.auto_accept == s.auto_accept
    &&& r.start_minimized == s.start_minimized
    &&& r.start_on_login == s.start_on_login
    &&& r.theme == s.theme
}

/// The settings without their secret key.
pub fn without_secret(s: Settings) -> (r: Settings)
    ensures
        shown(r, s),
{
    Settings { secret_key: String::new(), ..s }
}

/// The current settings, as the interface sees them.
pub fn get_settings(state: &AppState) -> (r: Settings)
    requires
        state.inv(),
    ensures
        shown(r, state.settings_view()),
{
    without_secret(state.settings())
}

/// The settings the interface sent, keeping this device's secret key: the
/// key never changes through the interface.
pub open spec fn merged_settings(prev: Settings, new_settings: Settings) -> Settings {
    Settings { secret_key: prev.secret_key, ..new_settings }
}

/// An update from the interface changes every setting to what it sent,
/// except the secret key, which stays the device's own: whatever was in
/// force before, and whatever key the interface sent.
pub proof fn lemma_update_takes_all_but_the_key(prev: Settings, sent: Settings)
    ensures
        merged_settings(prev, sent).secret_key == prev.secret_key,
        merged_settings(prev, sent).display_name == sent.display_name,
        merged_settings(prev, sent).download_dir == sent.download_dir,
        merged_settings(prev, sent).auto_accept == sent.auto_accept,
        merged_settings(prev, sent).start_minimized == sent.start_minimized,
        merged_settings(prev, sent).start_on_login == sent.start_on_login,
        merged_settings(prev, sent).theme == sent.theme,
{
}

/// The settings to save and apply for what the interface sent.
pub fn merge_settings(state: &AppState, new_settings: Settings) -> (r: Settings)
    requires
        state.inv(),
    ensures
        r == merged_settings(state.settings_view(), new_settings),
        key_text_fits(r.secret_key@),
        r.secret_key == state.settings_view().secret_key,
        r.display_name == new_settings.display_name,
        r.download_dir == new_settings.download_dir,
        r.auto_accept == new_settings.auto_accept,
        r.start_minimized == new_settings.start_minimized,
        r.start_on_login == new_settings.start_on_login,
        r.theme == new_settings.theme,
{
    let prev = state.settings();
    proof {
        state.lemma_settings_key_fits();
    }
    Settings { secret_key: prev.secret_key, ..new_settings }
}

/// The settings in force after an update, as the interface sees them, and
/// the new identity when the display name changed (the caller then
/// re-announces it).
pub struct SettingsUpdate {
    pub settings: Settings,
    pub identity: Option<Identity>,
}

/// Puts saved settings in force. When the display name changed, the
/// identity is renamed; that needs the key, and fails with `invalid secret
/// key: ...` when the key text does not read back.
pub fn commit_settings(state: &mut AppState, merged: Settings) -> (r: Result<SettingsUpdate, String>)
    requires
        old(state).inv(),
        key_text_fits(merged.secret_key@),
    ensures
        final(state).inv(),
        final(state).settings_view() == merged,
        final(state).peer_map() == old(state).peer_map(),
        final(state).transfer_map() == old(state).transfer_map(),
        final(state).pending_map() == old(state).pending_map(),
        merged.display_name@ == old(state).settings_view().display_name@ ==> {
            &&& r matches Ok(u)
            &&& shown(u.settings, merged)
            &&& u.identity is None
            &&& final(state).identity_view() == old(state).identity_view()
        },
        merged.display_name@ != old(state).settings_view().display_name@ ==> {
            &&& r is Ok <==> valid_key_text(merged.secret_key@)
            &&& r matches Ok(u) ==> {
                &&& shown(u.settings, merged)
                &&& u.identity == Some(final(state).identity_view())
                &&& final(state).identity_view().name == merged.display_name
                &&& final(state).identity_view().id@ == hex_lower_of_public(
                    hex_decoded(vstd::utf8::encode_utf8(merged.secret_key@)),
                )
            }
            &&& r is Err ==> final(state).identity_view() == old(state).identity_view()
        },
{
    let prev = state.settings();
    state.set_settings(merged.clone());
    if merged.display_name == prev.display_name {
        return Ok(SettingsUpdate { settings: without_secret(merged), identity: None });
    }
    let secret = match merged.secret() {
        Ok(k) => k,
        Err(e) => {
            let mut msg = "invalid secret key: ".to_string();
            msg.append(e.message().as_str());
            return Err(msg);
        },
    };
    let identity = Identity::new(&secret, Some(merged.display_name.clone()));
    state.set_identity(identity.clone());
    Ok(SettingsUpdate { settings: without_secret(merged), identity: Some(identity) })
}

} // verus!
