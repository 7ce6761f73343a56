//! The Kobo wireless-sync card: the reader's registered devices, what
//! adding, regenerating and removing one does to the list, and the card's
//! markup with each device's endpoint URL.

use vstd::prelude::*;
use crate::markup::{escaped, push_escaped};
use crate::num::{int_digits, push_i64};
use crate::profile::{credential_status_message, status_markup};
use crate::settings::{endpoint_url, trim_end_char};
use crate::text::{from_chars, push_str, string_of, to_chars, trim, trimmed};

verus! {

/// One registered Kobo.
#[derive(Clone, Debug)]
pub struct KoboDeviceView {
    pub id: i64,
    pub name: String,
    pub token: String,
    pub created_at: i64,
    pub last_seen_at: i64,
}

// ── The device list ───────────────────────────────────────────────

/// Index of the first device with this id.
pub open spec fn first_with_id(devs: Seq<KoboDeviceView>, id: i64) -> Option<int>
    decreases devs.len(),
{
    if devs.len() == 0 {
        None
    } else if devs[0].id == id {
        Some(0)
    } else {
        match first_with_id(devs.drop_first(), id) {
            Some(i) => Some(i + 1),
            None => None,
        }
    }
}

/// The list after a regenerated token: the first device with that id
/// replaced by the server's answer; unchanged when none has it.
pub open spec fn replaced(devs: Seq<KoboDeviceView>, id: i64, updated: KoboDeviceView) -> Seq<KoboDeviceView> {
    match first_with_id(devs, id) {
        Some(i) => devs.update(i, updated),
        None => devs,
    }
}

/// The list without every device with this id, the rest in order.
pub open spec fn without_id(devs: Seq<KoboDeviceView>, id: i64) -> Seq<KoboDeviceView>
    decreases devs.len(),
{
    if devs.len() == 0 {
        Seq::empty()
    } else {
        let rest = without_id(devs.drop_last(), id);
        if devs.last().id == id {
            rest
        } else {
            rest.push(devs.last())
        }
    }
}

proof fn lemma_first_with_id_bounds(devs: Seq<KoboDeviceView>, id: i64)
    ensures
        first_with_id(devs, id) matches Some(i) ==> 0 <= i < devs.len() && devs[i].id == id
            && forall|k: int| 0 <= k < i ==> devs[k].id != id,
        first_with_id(devs, id) is None ==> forall|k: int| 0 <= k < devs.len() ==> devs[k].id != id,
    decreases devs.len(),
{
    if devs.len() > 0 && devs[0].id != id {
        lemma_first_with_id_bounds(devs.drop_first(), id);
        assert forall|k: int| 0 < k < devs.len() implies devs[k] == devs.drop_first()[k - 1] by {}
    }
}

/// Removing a device leaves no device with its id and keeps every other
/// device.
pub proof fn lemma_remove_drops_exactly_that_id(devs: Seq<KoboDeviceView>, id: i64)
    ensures
        forall|k: int| 0 <= k < without_id(devs, id).len() ==> without_id(devs, id)[k].id != id,
        forall|d: KoboDeviceView| #[trigger] devs.contains(d) && d.id != id ==> without_id(
            devs,
            id,
        ).contains(d),
    decreases devs.len(),
{
    if devs.len() > 0 {
        let init = devs.drop_last();
        lemma_remove_drops_exactly_that_id(init, id);
        let rest = without_id(init, id);
        assert forall|d: KoboDeviceView| #[trigger] devs.contains(d) && d.id != id implies without_id(
            devs,
            id,
        ).contains(d) by {
            let k = choose|k: int| 0 <= k < devs.len() && devs[k] == d;
            if k < devs.len() - 1 {
                assert(init[k] == d);
                assert(init.contains(d));
                let j = choose|j: int| 0 <= j < rest.len() && rest[j] == d;
                if devs.last().id != id {
                    assert(rest.push(devs.last())[j] == d);
                }
            } else {
                assert(rest.push(devs.last())[rest.len() as int] == d);
            }
        }
    }
}

fn replace_device(devs: &mut Vec<KoboDeviceView>, id: i64, updated: KoboDeviceView)
    ensures
        final(devs)@ == replaced(old(devs)@, id, updated),
{
    proof {
        lemma_first_with_id_bounds(old(devs)@, id);
    }
    let mut i: usize = 0;
    while i < devs.len()
        invariant
            i <= devs@.len(),
            devs@ == old(devs)@,
            forall|k: int| 0 <= k < i ==> devs@[k].id != id,
            first_with_id(old(devs)@, id) matches Some(f) ==> 0 <= f < devs@.len() && devs@[f].id
                == id && forall|k: int| 0 <= k < f ==> devs@[k].id != id,
            first_with_id(old(devs)@, id) is None ==> forall|k: int|
                0 <= k < devs@.len() ==> devs@[k].id != id,
        decreases devs.len() - i,
    {
        if devs[i].id == id {
            proof {
                let f = first_with_id(old(devs)@, id);
                assert(f == Some(i as int));
            }
            devs.set(i, updated);
            return;
        }
        i += 1;
    }
}

fn remove_devices(devs: &mut Vec<KoboDeviceView>, id: i64)
    ensures
        final(devs)@ == without_id(old(devs)@, id),
{
    let mut kept: Vec<KoboDeviceView> = Vec::new();
    let ghost all = devs@;
    let n = devs.len();
    let mut i: usize = 0;
    while i < n
        invariant
            i <= n == devs@.len(),
            devs@ == all,
            all == old(devs)@,
            kept@ == without_id(all.take(i as int), id),
        decreases n - i,
    {
        proof {
            assert(all.take(i as int + 1).drop_last() =~= all.take(i as int));
        }
        if devs[i].id != id {
            kept.push(devs[i].clone_device());
        }
        i += 1;
    }
    proof {
        assert(all.take(n as int) =~= all);
    }
    *devs = kept;
}

impl KoboDeviceView {
    /// A field-for-field copy.
    pub fn clone_device(&self) -> (out: Self)
        ensures
            out == *self,
    {
        KoboDeviceView {
            id: self.id,
            name: self.name.clone(),
            token: self.token.clone(),
            created_at: self.created_at,
            last_seen_at: self.last_seen_at,
        }
    }
}

// ── The card's state ──────────────────────────────────────────────

/// The status line reads `text`.
pub open spec fn says(o: Option<String>, text: Seq<char>) -> bool {
    o matches Some(m) && m@ == text
}

/// The Kobo card between renders.
#[derive(Clone, Debug)]
pub struct KoboCardState {
    pub devices: Vec<KoboDeviceView>,
    pub name_input: String,
    pub msg: Option<String>,
    pub msg_is_error: bool,
    pub in_flight: bool,
}

impl KoboCardState {
    /// Before the list arrives: no devices, an empty form.
    pub fn new() -> (s: Self)
        ensures
            s.devices@.len() == 0,
            s.name_input@.len() == 0,
            s.msg is None,
            !s.msg_is_error,
            !s.in_flight,
    {
        KoboCardState {
            devices: Vec::new(),
            name_input: String::new(),
            msg: None,
            msg_is_error: false,
            in_flight: false,
        }
    }

    /// The registered devices arrived.
    pub fn load(&mut self, list: Vec<KoboDeviceView>)
        ensures
            *final(self) == (KoboCardState { devices: list, ..*old(self) }),
    {
        self.devices = list;
    }

    /// The device-name field was edited.
    pub fn on_name_input(&mut self, value: String)
        ensures
            *final(self) == (KoboCardState { name_input: value, ..*old(self) }),
    {
        self.name_input = value;
    }

    /// "Add a Kobo" was pressed: a blank name is refused on the spot;
    /// otherwise the request starts with the trimmed name (the result).
    pub fn begin_add(&mut self) -> (name: Option<String>)
        ensures
            trim(old(self).name_input@).len() == 0 ==> name is None && says(
                final(self).msg,
                "Enter a name for your Kobo."@,
            ) && *final(self) == (KoboCardState {
                msg: final(self).msg,
                msg_is_error: true,
                ..*old(self)
            }),
            trim(old(self).name_input@).len() > 0 ==> (name matches Some(n) && n@ == trim(
                old(self).name_input@,
            )) && *final(self) == (KoboCardState { in_flight: true, ..*old(self) }),
    {
        let v = to_chars(self.name_input.as_str());
        let t = trimmed(&v);
        if t.len() == 0 {
            self.msg = Some(string_of("Enter a name for your Kobo."));
            self.msg_is_error = true;
            return None;
        }
        self.in_flight = true;
        Some(from_chars(&t))
    }

    /// The add came back: a new device joins the end of the list and the
    /// field empties; a failure shows the server's message.
    pub fn finish_add(&mut self, result: Result<KoboDeviceView, String>)
        ensures
            !final(self).in_flight,
            match result {
                Ok(dev) => final(self).devices@ == old(self).devices@.push(dev)
                    && final(self).name_input@.len() == 0 && says(
                    final(self).msg,
                    "Kobo added. Paste its endpoint URL below."@,
                ) && !final(self).msg_is_error,
                Err(e) => final(self).devices@ == old(self).devices@ && final(self).name_input
                    == old(self).name_input && final(self).msg == Some(e) && final(self).msg_is_error,
            },
    {
        match result {
            Ok(dev) => {
                self.name_input = String::new();
                self.devices.push(dev);
                self.msg = Some(string_of("Kobo added. Paste its endpoint URL below."));
                self.msg_is_error = false;
            },
            Err(e) => {
                self.msg = Some(e);
                self.msg_is_error = true;
            },
        }
        self.in_flight = false;
    }

    /// Regenerate or Remove was pressed on a row: the request starts.
    pub fn begin_device_action(&mut self)
        ensures
            *final(self) == (KoboCardState { in_flight: true, ..*old(self) }),
    {
        self.in_flight = true;
    }

    /// A regenerated token came back for device `id`.
    pub fn finish_regenerate(&mut self, id: i64, result: Result<KoboDeviceView, String>)
        ensures
            !final(self).in_flight,
            final(self).name_input == old(self).name_input,
            match result {
                Ok(updated) => final(self).devices@ == replaced(old(self).devices@, id, updated)
                    && says(final(self).msg, "Token regenerated. Update the URL on your Kobo."@)
                    && !final(self).msg_is_error,
                Err(e) => final(self).devices@ == old(self).devices@ && final(self).msg == Some(e)
                    && final(self).msg_is_error,
            },
    {
        match result {
            Ok(updated) => {
                replace_device(&mut self.devices, id, updated);
                self.msg = Some(string_of("Token regenerated. Update the URL on your Kobo."));
                self.msg_is_error = false;
            },
            Err(e) => {
                self.msg = Some(e);
                self.msg_is_error = true;
            },
        }
        self.in_flight = false;
    }

    /// The removal of device `id` came back.
    pub fn finish_remove(&mut self, id: i64, result: Result<(), String>)
        ensures
            !final(self).in_flight,
            final(self).name_input == old(self).name_input,
            match result {
                Ok(()) => final(self).devices@ == without_id(old(self).devices@, id) && says(
                    final(self).msg,
                    "Kobo removed."@,
                ) && !final(self).msg_is_error,
                Err(e) => final(self).devices@ == old(self).devices@ && final(self).msg == Some(e)
                    && final(self).msg_is_error,
            },
    {
        match result {
            Ok(()) => {
                remove_devices(&mut self.devices, id);
                self.msg = Some(string_of("Kobo removed."));
                self.msg_is_error = false;
            },
            Err(e) => {
                self.msg = Some(e);
                self.msg_is_error = true;
            },
        }
        self.in_flight = false;
    }
}

// ── Markup ────────────────────────────────────────────────────────

/// The card's fixed opening: title, the setup steps, and the data-loss
/// warning (shown before any device, so before any URL can be copied).
pub open spec fn card_head() -> Seq<char> {
    "<section class=\"card\" data-testid=\"kobo-devices-card\"><h2>Kobo wireless sync</h2><p class=\"subtitle\">There is no on-device setting for this \u{2014} the endpoint is set by editing a config file on the Kobo over USB:</p><ol class=\"subtitle kobo-setup-steps\" data-testid=\"kobo-setup-steps\"><li>Give your Kobo a name and click <b>Add a Kobo</b></li><li>Copy the device&#39;s wireless sync endpoint URL. (<code>/kobo/&lt;token&gt;</code>)</li><li>Connect the Kobo over USB,</li><li>Edit <code>.kobo/Kobo/Kobo eReader.conf</code> and set <code>api_endpoint=</code> under <code>[OneStoreServices]</code> to <code>&lt;your_omnibus_server_url&gt;/kobo/&lt;token&gt;</code>.</li><li>Eject safely. Your next sync on the device talks to Omnibus.</li></ol><div class=\"kobo-warning\" data-testid=\"kobo-data-loss-warning\"><p class=\"kobo-warning-title\">First sync can erase your Kobo&#39;s highlights</p><p>An improper sync can potentially wipe data on the Kobo like your annotations, notes, bookmarks, reading progress, and books.</p><p>It is highly recommended to back up your device before attempting a sync with one of these tools:</p><ul class=\"kobo-warning-tools\"><li><a href=\"https://github.com/seamus-sloan/kobo-backup#kobo-backup\" target=\"_blank\" rel=\"noopener noreferrer\">seamus-sloan/kobo-backup</a></li><li><a href=\"https://github.com/karlicoss/kobuddy#usage\" target=\"_blank\" rel=\"noopener noreferrer\">karlicoss/kobuddy</a></li></ul><p>At minimum, copy <code>.kobo/KoboReader.sqlite</code> off the device over USB.</p></div>"@
}

fn push_card_head(out: &mut String)
    ensures
        final(out)@ == old(out)@ + card_head(),
{
    push_str(out, "<section class=\"card\" data-testid=\"kobo-devices-card\"><h2>Kobo wireless sync</h2><p class=\"subtitle\">There is no on-device setting for this \u{2014} the endpoint is set by editing a config file on the Kobo over USB:</p><ol class=\"subtitle kobo-setup-steps\" data-testid=\"kobo-setup-steps\"><li>Give your Kobo a name and click <b>Add a Kobo</b></li><li>Copy the device&#39;s wireless sync endpoint URL. (<code>/kobo/&lt;token&gt;</code>)</li><li>Connect the Kobo over USB,</li><li>Edit <code>.kobo/Kobo/Kobo eReader.conf</code> and set <code>api_endpoint=</code> under <code>[OneStoreServices]</code> to <code>&lt;your_omnibus_server_url&gt;/kobo/&lt;token&gt;</code>.</li><li>Eject safely. Your next sync on the device talks to Omnibus.</li></ol><div class=\"kobo-warning\" data-testid=\"kobo-data-loss-warning\"><p class=\"kobo-warning-title\">First sync can erase your Kobo&#39;s highlights</p><p>An improper sync can potentially wipe data on the Kobo like your annotations, notes, bookmarks, reading progress, and books.</p><p>It is highly recommended to back up your device before attempting a sync with one of these tools:</p><ul class=\"kobo-warning-tools\"><li><a href=\"https://github.com/seamus-sloan/kobo-backup#kobo-backup\" target=\"_blank\" rel=\"noopener noreferrer\">seamus-sloan/kobo-backup</a></li><li><a href=\"https://github.com/karlicoss/kobuddy#usage\" target=\"_blank\" rel=\"noopener noreferrer\">karlicoss/kobuddy</a></li></ul><p>At minimum, copy <code>.kobo/KoboReader.sqlite</code> off the device over USB.</p></div>");
}

/// ` disabled` on a disabled control.
pub open spec fn disabled_attr(disabled: bool) -> Seq<char> {
    if disabled {
        " disabled"@
    } else {
        Seq::empty()
    }
}

/// One device row: its name, the read-only endpoint URL, and the
/// Regenerate / Remove buttons.
pub open spec fn device_row(d: KoboDeviceView, endpoint: Seq<char>, disabled: bool) -> Seq<char> {
    "<li class=\"kobo-device-row\" data-testid=\"kobo-device-row\"><div class=\"kobo-device-head\"><span class=\"kobo-device-name\">"@
        + escaped(d.name@)
        + "</span></div><div class=\"settings-field\"><label for=\"kobo-endpoint-"@ + int_digits(
        d.id as int,
    ) + "\">Wireless sync endpoint</label><input type=\"text\" id=\"kobo-endpoint-"@ + int_digits(
        d.id as int,
    ) + "\" class=\"kobo-endpoint-url\" data-testid=\"kobo-endpoint-url\" readonly value=\""@
        + escaped(endpoint)
        + "\"/></div><div class=\"settings-actions\"><button type=\"button\" class=\"btn ghost\""@
        + disabled_attr(disabled)
        + " data-testid=\"kobo-device-regenerate\">Regenerate</button><button type=\"button\" class=\"btn ghost danger\""@
        + disabled_attr(disabled) + " data-testid=\"kobo-device-remove\">Remove</button></div></li>"@
}

fn push_disabled(out: &mut String, disabled: bool)
    ensures
        final(out)@ == old(out)@ + disabled_attr(disabled),
{
    if disabled {
        push_str(out, " disabled");
    } else {
        assert(old(out)@ + disabled_attr(disabled) =~= old(out)@);
    }
}

fn push_device_row(out: &mut String, d: &KoboDeviceView, endpoint: &str, disabled: bool)
    ensures
        final(out)@ == old(out)@ + device_row(*d, endpoint@, disabled),
{
    let ghost start = out@;
    push_str(
        out,
        "<li class=\"kobo-device-row\" data-testid=\"kobo-device-row\"><div class=\"kobo-device-head\"><span class=\"kobo-device-name\">",
    );
    push_escaped(out, d.name.as_str());
    push_str(out, "</span></div><div class=\"settings-field\"><label for=\"kobo-endpoint-");
    push_i64(out, d.id);
    push_str(out, "\">Wireless sync endpoint</label><input type=\"text\" id=\"kobo-endpoint-");
    push_i64(out, d.id);
    push_str(
        out,
        "\" class=\"kobo-endpoint-url\" data-testid=\"kobo-endpoint-url\" readonly value=\"",
    );
    push_escaped(out, endpoint);
    push_str(out, "\"/></div><div class=\"settings-actions\"><button type=\"button\" class=\"btn ghost\"");
    push_disabled(out, disabled);
    push_str(
        out,
        " data-testid=\"kobo-device-regenerate\">Regenerate</button><button type=\"button\" class=\"btn ghost danger\"",
    );
    push_disabled(out, disabled);
    push_str(out, " data-testid=\"kobo-device-remove\">Remove</button></div></li>");
    assert(out@ =~= start + device_row(*d, endpoint@, disabled));
}

/// Markup of one device row.
pub fn kobo_device_row(d: &KoboDeviceView, endpoint: &str, disabled: bool) -> (html: String)
    ensures
        html@ == device_row(*d, endpoint@, disabled),
{
    let mut out = String::new();
    push_device_row(&mut out, d, endpoint, disabled);
    out
}

/// The endpoint a device on this server is pointed at.
pub open spec fn endpoint_of(server_url: Seq<char>, d: KoboDeviceView) -> Seq<char> {
    trim_end_char(server_url, '/') + "/kobo/"@ + d.token@
}

/// The rows of `devs`, in order.
pub open spec fn device_rows(devs: Seq<KoboDeviceView>, server_url: Seq<char>, disabled: bool) -> Seq<char>
    decreases devs.len(),
{
    if devs.len() == 0 {
        Seq::empty()
    } else {
        device_rows(devs.drop_last(), server_url, disabled) + device_row(
            devs.last(),
            endpoint_of(server_url, devs.last()),
            disabled,
        )
    }
}

/// The whole card: the fixed opening, the device list (or its empty
/// state), the add form, and the status line.
pub open spec fn kobo_card_markup(s: KoboCardState, server_url: Seq<char>) -> Seq<char> {
    card_head() + (if s.devices@.len() == 0 {
        "<p class=\"settings-status\" data-testid=\"kobo-devices-empty\">No Kobo registered yet.</p>"@
    } else {
        "<ul class=\"kobo-device-list\" data-testid=\"kobo-device-list\">"@ + device_rows(
            s.devices@,
            server_url,
            s.in_flight,
        ) + "</ul>"@
    })
        + "<form id=\"kobo-add-form\" class=\"settings-form\"><div class=\"settings-field\"><label for=\"kobo-device-name\">Device name</label><input type=\"text\" id=\"kobo-device-name\" name=\"kobo_device_name\" data-testid=\"kobo-device-name-input\" autocomplete=\"off\" placeholder=\"Kobo Clara\" maxlength=\"100\" value=\""@
        + escaped(s.name_input@)
        + "\"/></div><div class=\"settings-actions\"><button type=\"submit\" class=\"btn\""@
        + disabled_attr(s.in_flight)
        + " data-testid=\"kobo-device-add\">Add a Kobo</button></div></form>"@ + status_markup(
        "kobo-devices-status"@,
        match s.msg {
            Some(m) => Some(m@),
            None => None,
        },
        s.msg_is_error,
    ) + "</section>"@
}

/// Markup of the Kobo card on the server `server_url`.
pub fn KoboDevicesCard(s: &KoboCardState, server_url: &str) -> (html: String)
    ensures
        html@ == kobo_card_markup(*s, server_url@),
{
    let mut out = String::new();
    push_card_head(&mut out);
    let ghost head = out@;
    if s.devices.len() == 0 {
        push_str(
            &mut out,
            "<p class=\"settings-status\" data-testid=\"kobo-devices-empty\">No Kobo registered yet.</p>",
        );
    } else {
        push_str(&mut out, "<ul class=\"kobo-device-list\" data-testid=\"kobo-device-list\">");
        let ghost open = out@;
        let mut i: usize = 0;
        while i < s.devices.len()
            invariant
                i <= s.devices@.len(),
                out@ == open + device_rows(s.devices@.take(i as int), server_url@, s.in_flight),
            decreases s.devices.len() - i,
        {
            let endpoint = endpoint_url(server_url, s.devices[i].token.as_str());
            push_device_row(&mut out, &s.devices[i], endpoint.as_str(), s.in_flight);
            proof {
                assert(s.devices@.take(i as int + 1).drop_last() =~= s.devices@.take(i as int));
            }
            i += 1;
        }
        proof {
            assert(s.devices@.take(s.devices.len() as int) =~= s.devices@);
        }
        push_str(&mut out, "</ul>");
    }
    let ghost mid = out@;
    push_str(
        &mut out,
        "<form id=\"kobo-add-form\" class=\"settings-form\"><div class=\"settings-field\"><label for=\"kobo-device-name\">Device name</label><input type=\"text\" id=\"kobo-device-name\" name=\"kobo_device_name\" data-testid=\"kobo-device-name-input\" autocomplete=\"off\" placeholder=\"Kobo Clara\" maxlength=\"100\" value=\"",
    );
    push_escaped(&mut out, s.name_input.as_str());
    push_str(&mut out, "\"/></div><div class=\"settings-actions\"><button type=\"submit\" class=\"btn\"");
    push_disabled(&mut out, s.in_flight);
    push_str(&mut out, " data-testid=\"kobo-device-add\">Add a Kobo</button></div></form>");
    let status = match &s.msg {
        Some(m) => credential_status_message("kobo-devices-status", Some(m.as_str()), s.msg_is_error),
        None => credential_status_message("kobo-devices-status", None, s.msg_is_error),
    };
    push_str(&mut out, status.as_str());
    push_str(&mut out, "</section>");
    assert(out@ =~= kobo_card_markup(*s, server_url@));
    out
}

} // verus!
