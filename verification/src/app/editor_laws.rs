//! What editing a profile does, and what it leaves alone.

use crate::app::state::{EffectModel, Message, Moment, StateModel};
use crate::app::{BannerKind, BannerModel, EditorField, EditorModel, EditorState, Screen};
use crate::config::profile::{PeerModel, WgProfile};
use crate::error::AppResult;
use vstd::prelude::*;

verus! {

// ── one field ───────────────────────────────────────────────────────────────

/// The number in what was typed, where it is one that fits 16 bits.
pub open spec fn typed_number(v: String) -> Option<nat> {
    crate::text::unsigned_value(crate::text::trimmed(v@), 65535)
}

/// Whether an optional number is the typed one.
pub open spec fn is_number(n: Option<u16>, typed: Option<nat>) -> bool {
    match n {
        Some(x) => typed == Some(x as nat),
        None => typed is None,
    }
}

/// Whether a text that may be missing is what was typed: there is none where that is blank.
pub open spec fn is_typed(t: Option<Seq<char>>, v: String) -> bool {
    if crate::text::trimmed(v@).len() == 0 {
        t is None
    } else {
        t == Some(v@)
    }
}

/// What is typed into a field of the interface becomes that field, and every other field stays as
/// it was, whatever is typed elsewhere.
pub proof fn law_each_interface_field_is_its_own(e: EditorModel, field: EditorField)
    ensures
        ({
            let was = e.draft.interface;
            let now = crate::app::editor::edited(e, field).draft.interface;
            &&& match field {
                EditorField::PrivateKey(v) => now.private_key == v@,
                _ => now.private_key == was.private_key,
            }
            &&& match field {
                EditorField::Address(v) => now.address == crate::config::profile::list_items(v@),
                _ => now.address == was.address,
            }
            &&& match field {
                EditorField::Dns(v) => now.dns == crate::config::profile::list_items(v@),
                _ => now.dns == was.dns,
            }
            &&& match field {
                EditorField::ListenPort(v) => is_number(now.listen_port, typed_number(v)),
                _ => now.listen_port == was.listen_port,
            }
            &&& match field {
                EditorField::Mtu(v) => is_number(now.mtu, typed_number(v)),
                _ => now.mtu == was.mtu,
            }
        }),
{
}

/// Naming the profile names the draft and what it is kept under; no other change names anything.
/// The text, the complaints, the path and whether the profile is new are not touched.
pub proof fn law_only_naming_names(e: EditorModel, field: EditorField)
    ensures
        ({
            let now = crate::app::editor::edited(e, field);
            &&& match field {
                EditorField::ProfileName(v) => now.profile_name == v@ && now.draft.name == v@,
                _ => now.profile_name == e.profile_name && now.draft.name == e.draft.name,
            }
            &&& now.draft.path == e.draft.path
            &&& now.raw_text == e.raw_text
            &&& now.validation_errors == e.validation_errors
            &&& now.is_new == e.is_new
        }),
{
}

/// Whether `now` is a peer after a change to peer number `k`, which was `was`: what is typed for
/// this peer becomes the field it is typed for, and every other field stays as it was.
pub open spec fn peer_follows(was: PeerModel, now: PeerModel, field: EditorField, k: int) -> bool {
    &&& match field {
        EditorField::PeerPublicKey(i, v) if i == k => now.public_key == v@,
        _ => now.public_key == was.public_key,
    }
    &&& match field {
        EditorField::PeerPresharedKey(i, v) if i == k => is_typed(now.preshared_key, v),
        _ => now.preshared_key == was.preshared_key,
    }
    &&& match field {
        EditorField::PeerEndpoint(i, v) if i == k => is_typed(now.endpoint, v),
        _ => now.endpoint == was.endpoint,
    }
    &&& match field {
        EditorField::PeerAllowedIps(i, v) if i == k => now.allowed_ips
            == crate::config::profile::list_items(v@),
        _ => now.allowed_ips == was.allowed_ips,
    }
    &&& match field {
        EditorField::PeerKeepalive(i, v) if i == k => is_number(
            now.persistent_keepalive,
            typed_number(v),
        ),
        _ => now.persistent_keepalive == was.persistent_keepalive,
    }
}

/// A new peer comes behind the others and says nothing; a removed one leaves the others in their
/// order; any other change keeps the peers, and changes at most the one it is for.
pub proof fn law_each_peer_is_its_own(e: EditorModel, field: EditorField)
    ensures
        ({
            let was = e.draft.peers;
            let now = crate::app::editor::edited(e, field).draft.peers;
            match field {
                EditorField::AddPeer => now.len() == was.len() + 1 && now.take(was.len() as int)
                    == was && now.last().public_key.len() == 0 && now.last().preshared_key is None
                    && now.last().endpoint is None && now.last().allowed_ips.len() == 0
                    && now.last().persistent_keepalive is None,
                EditorField::RemovePeer(i) => if i < was.len() {
                    now == was.take(i as int) + was.skip(i as int + 1)
                } else {
                    now == was
                },
                _ => now.len() == was.len() && forall|k: int|
                    0 <= k < was.len() ==> peer_follows(was[k], #[trigger] now[k], field, k),
            }
        }),
{
    let was = e.draft.peers;
    let now = crate::app::editor::edited(e, field).draft.peers;
    match field {
        EditorField::AddPeer => {
            assert(now.take(was.len() as int) =~= was);
        },
        EditorField::RemovePeer(i) => {
            if i < was.len() {
                assert(now =~= was.take(i as int) + was.skip(i as int + 1));
            }
        },
        _ => {},
    }
}

/// A change made twice is made once, unless it adds or removes a peer.
pub proof fn law_typing_again_changes_nothing(e: EditorModel, field: EditorField)
    requires
        !(field is AddPeer),
        !(field is RemovePeer),
    ensures
        crate::app::editor::edited(crate::app::editor::edited(e, field), field)
            == crate::app::editor::edited(e, field),
{
    let once = crate::app::editor::edited(e, field);
    let twice = crate::app::editor::edited(once, field);
    assert(twice.draft.peers =~= once.draft.peers);
}

/// Adding a peer and removing it again leaves the editor as it was.
pub proof fn law_an_added_peer_can_be_removed(e: EditorModel, last: usize)
    requires
        last == e.draft.peers.len(),
    ensures
        crate::app::editor::edited(
            crate::app::editor::edited(e, EditorField::AddPeer),
            EditorField::RemovePeer(last),
        ) == e,
{
    let more = crate::app::editor::edited(e, EditorField::AddPeer);
    let back = crate::app::editor::edited(more, EditorField::RemovePeer(last));
    assert(back.draft.peers =~= e.draft.peers);
}

// ── the editor in the window ────────────────────────────────────────────────

/// Whether nothing but the editor, the screen and the banner differs between two states.
pub open spec fn only_editing(s: StateModel, after: StateModel) -> bool {
    after == (StateModel {
        editor: after.editor,
        screen: after.screen,
        banner: after.banner,
        ..s
    })
}

/// Whether an editor's text is that of its draft, and its complaints are those about its draft.
pub open spec fn keeps_step(e: EditorModel) -> bool {
    &&& e.raw_text == crate::config::profile::conf_text(e.draft)
    &&& e.validation_errors == crate::config::validate::profile_complaints(e.draft)
}

/// Messages about the editor change nothing but the editor, the screen and the banner.
pub proof fn law_editing_touches_nothing_else(s: StateModel, message: Message, at: Moment)
    requires
        crate::app::react::topic_of(message) is Editing,
    ensures
        only_editing(s, crate::app::react::react(s, message, at).0),
{
    reveal(crate::app::react::react_editing);
    match message {
        Message::OpenNewProfile => {
            reveal(crate::app::react::opened);
        },
        Message::EditProfile(_) => {
            reveal(crate::app::react::opened);
            reveal(crate::app::react::editing);
        },
        Message::EditorFieldChanged(_) => {
            reveal(crate::app::react::field_changed);
        },
        Message::EditorToggleRaw => {
            reveal(crate::app::react::toggled);
        },
        Message::RawEditorAction(_) => {
            reveal(crate::app::react::raw_changed);
        },
        Message::EditorSave => {
            reveal(crate::app::react::saving);
        },
        Message::KeypairGenerated(_) => {
            reveal(crate::app::react::keys_generated);
        },
        _ => {
            reveal(crate::app::react::closed);
            reveal(crate::app::react::reloaded);
        },
    }
}

/// A changed field changes the draft as that change does, and the text and the complaints keep
/// step; nothing else happens, and without an editor nothing at all.
pub proof fn law_a_changed_field_shows(s: StateModel, field: EditorField, at: Moment)
    ensures
        ({
            let r = crate::app::react::react(s, Message::EditorFieldChanged(field), at);
            &&& r.1.len() == 0
            &&& r.0.screen == s.screen && r.0.banner == s.banner
            &&& match s.editor {
                None => r.0.editor is None,
                Some(e) => r.0.editor is Some && r.0.editor->0.draft == crate::app::editor::edited(
                    e,
                    field,
                ).draft && r.0.editor->0.profile_name == crate::app::editor::edited(
                    e,
                    field,
                ).profile_name && r.0.editor->0.is_new == e.is_new && keeps_step(r.0.editor->0),
            }
        }),
{
    reveal(crate::app::react::react_editing);
    reveal(crate::app::react::field_changed);
}

/// The editor of a new profile opens empty and is marked as new; that of a profile opens with that
/// profile and is not. Either way its text is shown. A profile that is not there opens nothing.
pub proof fn law_editors_open_with_their_profile(s: StateModel, name: String, at: Moment)
    ensures
        ({
            let new = crate::app::react::react(s, Message::OpenNewProfile, at);
            let old = crate::app::react::react(s, Message::EditProfile(name), at);
            &&& new.0.screen is Editor && new.0.editor is Some
            &&& new.0.editor->0.is_new && new.0.editor->0.profile_name.len() == 0
            &&& new.0.editor->0.draft.name.len() == 0 && new.0.editor->0.draft.peers.len() == 0
            &&& new.0.editor->0.draft.path is None
            &&& new.0.editor->0.draft.interface.private_key.len() == 0
            &&& new.0.editor->0.draft.interface.address.len() == 0
            &&& new.0.editor->0.draft.interface.dns.len() == 0
            &&& new.0.editor->0.draft.interface.listen_port is None
            &&& new.0.editor->0.draft.interface.mtu is None
            &&& new.0.editor->0.validation_errors.len() == 0
            &&& new.1 == seq![EffectModel::SeedRawEditor(new.0.editor->0.raw_text)]
            &&& new.0.editor->0.raw_text == crate::config::profile::conf_text(
                new.0.editor->0.draft,
            )
            &&& match crate::app::react::found(s.profiles, name@) {
                Some(p) => old.0.screen is Editor && old.0.editor is Some && old.0.editor->0.draft
                    == p && old.0.editor->0.profile_name == name@ && !old.0.editor->0.is_new
                    && keeps_step(old.0.editor->0) && old.1 == seq![
                    EffectModel::SeedRawEditor(old.0.editor->0.raw_text),
                ],
                None => old.0.editor == s.editor && old.0.screen == s.screen && old.1.len() == 0
                    && old.0.banner == Some(
                    BannerModel {
                        kind: BannerKind::Error,
                        message: "Profile '"@ + name@ + "' not found"@,
                    },
                ),
            }
        }),
{
    reveal(crate::app::react::react_editing);
    reveal(crate::app::react::opened);
    reveal(crate::app::react::editing);
}

/// Showing the text and going back leads back to the fields, and changes nothing that is edited;
/// the text shown is the editor's.
pub proof fn law_text_and_fields_are_two_views(s: StateModel, at: Moment)
    requires
        s.screen is Editor,
        s.editor is Some,
    ensures
        ({
            let raw = crate::app::react::react(s, Message::EditorToggleRaw, at);
            let back = crate::app::react::react(raw.0, Message::EditorToggleRaw, at);
            &&& raw.0 == (StateModel { screen: Screen::RawEditor, ..s })
            &&& raw.1 == seq![EffectModel::SeedRawEditor(s.editor->0.raw_text)]
            &&& back.0 == s
            &&& back.1.len() == 0
        }),
{
    reveal(crate::app::react::react_editing);
    reveal(crate::app::react::toggled);
}

/// A text that can be read becomes the draft, under the name typed or else that of the draft, and
/// keeps the path; one that cannot leaves the draft alone and is reported. The text itself is kept
/// as typed either way.
pub proof fn law_typed_text_becomes_the_draft(s: StateModel, text: String, at: Moment)
    requires
        s.editor is Some,
    ensures
        ({
            let e = s.editor->0;
            let r = crate::app::react::react(s, Message::RawEditorAction(text), at);
            let now = r.0.editor->0;
            let name = if e.profile_name.len() > 0 {
                e.profile_name
            } else {
                e.draft.name
            };
            &&& r.1.len() == 0
            &&& r.0.editor is Some
            &&& r.0.screen == s.screen
            &&& now.raw_text == text@
            &&& now.profile_name == e.profile_name && now.is_new == e.is_new
            &&& match crate::config::profile::parsed_conf(name, text@) {
                Ok(p) => now.draft.interface == p.interface && now.draft.peers == p.peers
                    && now.draft.name == p.name && now.draft.path == e.draft.path
                    && now.validation_errors == crate::config::validate::profile_complaints(
                    now.draft,
                ) && r.0.banner is None,
                Err(d) => now.draft == e.draft && now.validation_errors == e.validation_errors
                    && r.0.banner is Some && r.0.banner->0.kind is Warning
                    && r.0.banner->0.message == "Parse error: [E104] failed to parse profile '"@
                    + name + "': "@ + d,
            }
        }),
{
    reveal(crate::app::react::react_editing);
    reveal(crate::app::react::raw_changed);
    reveal_strlit("Parse error: ");
    reveal_strlit("[E104] failed to parse profile '");
    reveal_strlit("Parse error: [E104] failed to parse profile '");
    assert("Parse error: [E104] failed to parse profile '"@ =~= "Parse error: "@
        + "[E104] failed to parse profile '"@);
    let e = s.editor->0;
    let name = crate::app::react::editor_name(e);
    if let Err(d) = crate::config::profile::parsed_conf(name, text@) {
        assert("Parse error: "@ + ("[E104] failed to parse profile '"@ + name + "': "@ + d)
            =~= "Parse error: [E104] failed to parse profile '"@ + name + "': "@ + d);
    }
}

/// What is saved is the draft under the name typed, where nothing is wrong with it and the name is
/// not blank; it is saved as new just where the editor was opened for a new profile. Otherwise
/// nothing is saved, the editor stays open, and what is wrong is said.
pub proof fn law_saving_saves_the_draft(s: StateModel, at: Moment)
    requires
        s.editor is Some,
    ensures
        ({
            let e = s.editor->0;
            let r = crate::app::react::react(s, Message::EditorSave, at);
            let draft = r.0.editor->0.draft;
            let wrong = crate::config::validate::profile_complaints(draft);
            &&& r.0.editor is Some && r.0.screen == s.screen
            &&& draft.name == if e.profile_name.len() > 0 {
                e.profile_name
            } else {
                e.draft.name
            }
            &&& draft.interface == e.draft.interface && draft.peers == e.draft.peers
                && draft.path == e.draft.path
            &&& if wrong.len() > 0 {
                r.1.len() == 0 && r.0.editor->0.validation_errors == wrong && r.0.banner == Some(
                    BannerModel {
                        kind: BannerKind::Error,
                        message: "Cannot save: fix the validation errors first"@,
                    },
                )
            } else if crate::text::trimmed(draft.name).len() == 0 {
                r.1.len() == 0 && r.0.banner == Some(
                    BannerModel {
                        kind: BannerKind::Error,
                        message: "Profile name must not be empty"@,
                    },
                )
            } else {
                r.1 == seq![EffectModel::SaveProfile { profile: draft, is_new: e.is_new }]
                    && r.0.banner == s.banner
            }
        }),
{
    reveal(crate::app::react::react_editing);
    reveal(crate::app::react::saving);
}

/// A saved profile closes the editor and has the profiles loaded again; one that could not be saved
/// leaves the editor as it was and is reported. Cancelling closes the editor and saves nothing.
pub proof fn law_editors_close(
    s: StateModel,
    saved: AppResult<WgProfile>,
    at: Moment,
)
    ensures
        ({
            let r = crate::app::react::react(s, Message::EditorSaveResult(saved), at);
            let c = crate::app::react::react(s, Message::EditorCancel, at);
            &&& match saved {
                Ok(p) => r.0.editor is None && r.0.screen is ProfileList && r.1 == seq![
                    EffectModel::LoadProfiles,
                ] && r.0.banner is Some && r.0.banner->0.kind is Success
                    && r.0.banner->0.message == "Saved '"@ + p@.name + "'"@,
                Err(e) => r.0.editor == s.editor && r.0.screen == s.screen && r.1.len() == 0
                    && r.0.banner is Some && r.0.banner->0.kind is Error && r.0.banner->0.message
                    == "Save failed: "@ + e.message(),
            }
            &&& c.0.editor is None && c.0.screen is ProfileList && c.0.banner is None
            &&& c.1.len() == 0
        }),
{
    reveal(crate::app::react::react_editing);
    reveal(crate::app::react::closed);
    reveal(crate::app::react::reloaded);
}

/// Generated keys put the private one into the draft and show the public one; nothing else of the
/// draft changes. Asking for keys has them generated.
pub proof fn law_generated_keys_go_into_the_draft(
    s: StateModel,
    keys: AppResult<(String, String)>,
    at: Moment,
)
    ensures
        ({
            let ask = crate::app::react::react(s, Message::GenerateKeypair, at);
            let r = crate::app::react::react(s, Message::KeypairGenerated(keys), at);
            &&& ask.0 == s && ask.1 == seq![EffectModel::GenerateKeypair]
            &&& r.1.len() == 0 && r.0.screen == s.screen
            &&& r.0.editor is Some <==> s.editor is Some
            &&& match keys {
                Ok(k) => r.0.banner == Some(
                    BannerModel {
                        kind: BannerKind::Info,
                        message: "Generated keypair (public key: "@ + k.1@ + ")"@,
                    },
                ) && (s.editor is Some ==> {
                    let was = s.editor->0.draft;
                    let now = r.0.editor->0.draft;
                    &&& now.interface.private_key == k.0@
                    &&& now.interface.address == was.interface.address
                    &&& now.interface.dns == was.interface.dns
                    &&& now.interface.listen_port == was.interface.listen_port
                    &&& now.interface.mtu == was.interface.mtu
                    &&& now.peers == was.peers && now.name == was.name && now.path == was.path
                    &&& r.0.editor->0.is_new == s.editor->0.is_new
                    &&& r.0.editor->0.profile_name == s.editor->0.profile_name
                    &&& keeps_step(r.0.editor->0)
                }),
                Err(e) => r.0.editor == s.editor && r.0.banner == Some(
                    BannerModel {
                        kind: BannerKind::Error,
                        message: "Keygen failed: "@ + e.message(),
                    },
                ),
            }
        }),
{
    reveal(crate::app::react::react_editing);
    reveal(crate::app::react::keys_generated);
}

// ── the editor itself ───────────────────────────────────────────────────────

/// Typing addresses and typing name servers are two things: each fills its own list with what
/// stands between the commas, and leaves the other, and the rest of the draft, as it was.
pub proof fn law_addresses_are_not_name_servers(
    one: &mut EditorState,
    two: &mut EditorState,
    typed: String,
)
    requires
        call_ensures(
            crate::app::editor::apply_editor_field,
            (one, EditorField::Address(typed)),
            (),
        ),
        call_ensures(crate::app::editor::apply_editor_field, (two, EditorField::Dns(typed)), ()),
    ensures
        final(one)@.draft.interface.address == crate::config::profile::list_items(typed@),
        final(one)@.draft.interface.dns == old(one)@.draft.interface.dns,
        final(one)@.draft.peers == old(one)@.draft.peers,
        final(one)@.draft.interface.private_key == old(one)@.draft.interface.private_key,
        final(two)@.draft.interface.dns == crate::config::profile::list_items(typed@),
        final(two)@.draft.interface.address == old(two)@.draft.interface.address,
        final(two)@.draft.peers == old(two)@.draft.peers,
        final(two)@.draft.interface.private_key == old(two)@.draft.interface.private_key,
{
}

} // verus!
