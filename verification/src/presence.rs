//! Presence payload builder: assembles the outward-facing status
//! payload (text, timestamps, image, and at most two action buttons)
//! from filtered content.  Everything here is pure.

use vstd::prelude::*;
use vstd::string::StringExecFns;

use crate::media::ExternalService;
use crate::media::MediaType;

verus! {

/// One action button on the outward payload: a label and a target URL.
pub struct ButtonSlot {
    pub label: String,
    pub url: String,
}

/// The assembled status payload handed to the transport.
pub struct ActivityPayload {
    pub state_message: String,
    pub details: String,
    /// Absolute end timestamp for a countdown; `None` omits timing.
    pub end_time: Option<i64>,
    pub image_url: String,
    /// At most two buttons; the transport enforces this cap as well.
    pub buttons: Vec<ButtonSlot>,
    /// Diagnostic line embedding the running version.
    pub tag_line: String,
    pub media_type: MediaType,
}

impl ActivityPayload {
    /// The one internal invariant: the button cap holds.
    pub open spec fn wf(self) -> bool {
        self.buttons@.len() <= 2
    }
}

/// A configured button slot whose name and URL are both the sentinel
/// `"dynamic"` asks to be filled from the item's external services.
pub open spec fn spec_is_dynamic(label: Seq<char>, url: Seq<char>) -> bool {
    label == "dynamic"@ && url == "dynamic"@
}

/// Label and URL of a button, as character sequences.
pub open spec fn slot_view(b: ButtonSlot) -> (Seq<char>, Seq<char>) {
    (b.label@, b.url@)
}

/// The labels and URLs of a button list.
pub open spec fn slot_views(s: Seq<ButtonSlot>) -> Seq<(Seq<char>, Seq<char>)> {
    s.map_values(|b: ButtonSlot| slot_view(b))
}

/// The names and URLs of an external-service list.
pub open spec fn service_views(s: Seq<ExternalService>) -> Seq<(Seq<char>, Seq<char>)> {
    s.map_values(|e: ExternalService| (e.name@, e.url@))
}

/// Button selection, one configured slot at a time: a dynamic slot
/// takes the next unused external service (or is dropped when none
/// are left), any other slot is kept as configured, and selection
/// stops as soon as two buttons stand.
pub open spec fn spec_select_from(
    cfg: Seq<(Seq<char>, Seq<char>)>,
    svcs: Seq<(Seq<char>, Seq<char>)>,
    i: int,
    x: int,
    acc: Seq<(Seq<char>, Seq<char>)>,
) -> Seq<(Seq<char>, Seq<char>)>
    decreases cfg.len() - i,
{
    if i < 0 || i >= cfg.len() || acc.len() >= 2 {
        acc
    } else if spec_is_dynamic(cfg[i].0, cfg[i].1) {
        if 0 <= x < svcs.len() {
            spec_select_from(cfg, svcs, i + 1, x + 1, acc.push(svcs[x]))
        } else {
            spec_select_from(cfg, svcs, i + 1, x, acc)
        }
    } else {
        spec_select_from(cfg, svcs, i + 1, x, acc.push(cfg[i]))
    }
}

/// The buttons selected from configured slots and external services.
pub open spec fn spec_selected_buttons(
    cfg: Seq<(Seq<char>, Seq<char>)>,
    svcs: Seq<(Seq<char>, Seq<char>)>,
) -> Seq<(Seq<char>, Seq<char>)> {
    spec_select_from(cfg, svcs, 0, 0, Seq::empty())
}

/// Runtime test for the `"dynamic"`/`"dynamic"` sentinel pair.
pub fn is_dynamic(b: &ButtonSlot) -> (r: bool)
    ensures
        r == spec_is_dynamic(b.label@, b.url@),
{
    let d: String = "dynamic".to_owned();
    b.label == d && b.url == d
}

/// Selects the payload's buttons: dynamic slots are filled from the
/// external services in order, static slots pass through, and the
/// result never exceeds two buttons.
pub fn select_buttons(cfg: &Vec<ButtonSlot>, svcs: &Vec<ExternalService>) -> (r: Vec<ButtonSlot>)
    ensures
        slot_views(r@) == spec_selected_buttons(slot_views(cfg@), service_views(svcs@)),
        r@.len() <= 2,
{
    let ghost cfg_v = slot_views(cfg@);
    let ghost svc_v = service_views(svcs@);
    let mut out: Vec<ButtonSlot> = Vec::new();
    let mut i: usize = 0;
    let mut x: usize = 0;
    proof {
        assert(slot_views(out@) =~= Seq::<(Seq<char>, Seq<char>)>::empty());
    }
    while i < cfg.len() && out.len() < 2
        invariant
            i <= cfg@.len(),
            x <= svcs@.len(),
            out@.len() <= 2,
            cfg_v == slot_views(cfg@),
            svc_v == service_views(svcs@),
            spec_select_from(cfg_v, svc_v, i as int, x as int, slot_views(out@))
                == spec_selected_buttons(cfg_v, svc_v),
        decreases cfg@.len() - i,
    {
        let ghost acc0 = slot_views(out@);
        let b = &cfg[i];
        if is_dynamic(b) {
            if x < svcs.len() {
                out.push(ButtonSlot { label: svcs[x].name.clone(), url: svcs[x].url.clone() });
                proof {
                    assert(slot_views(out@) =~= acc0.push(svc_v[x as int]));
                }
                x += 1;
            }
        } else {
            out.push(ButtonSlot { label: b.label.clone(), url: b.url.clone() });
            proof {
                assert(slot_views(out@) =~= acc0.push(cfg_v[i as int]));
            }
        }
        i += 1;
    }
    proof {
        assert(spec_select_from(cfg_v, svc_v, i as int, x as int, slot_views(out@))
            == slot_views(out@));
    }
    out
}

/// Selection never yields more than two buttons, whatever is
/// configured and whatever the media server reports.
pub proof fn lemma_button_cap(
    cfg: Seq<(Seq<char>, Seq<char>)>,
    svcs: Seq<(Seq<char>, Seq<char>)>,
)
    ensures
        spec_selected_buttons(cfg, svcs).len() <= 2,
{
    lemma_select_from_cap(cfg, svcs, 0, 0, Seq::empty());
}

proof fn lemma_select_from_cap(
    cfg: Seq<(Seq<char>, Seq<char>)>,
    svcs: Seq<(Seq<char>, Seq<char>)>,
    i: int,
    x: int,
    acc: Seq<(Seq<char>, Seq<char>)>,
)
    requires
        acc.len() <= 2,
    ensures
        spec_select_from(cfg, svcs, i, x, acc).len() <= 2,
    decreases cfg.len() - i,
{
    if i < 0 || i >= cfg.len() || acc.len() >= 2 {
    } else if spec_is_dynamic(cfg[i].0, cfg[i].1) {
        if 0 <= x < svcs.len() {
            lemma_select_from_cap(cfg, svcs, i + 1, x + 1, acc.push(svcs[x]));
        } else {
            lemma_select_from_cap(cfg, svcs, i + 1, x, acc);
        }
    } else {
        lemma_select_from_cap(cfg, svcs, i + 1, x, acc.push(cfg[i]));
    }
}

/// The diagnostic tag line: the engine's name and the running
/// version, with `"0.0.0"` standing in when no version is known.
pub fn tag_line(version: Option<&str>) -> (r: String)
    ensures
        r@ == "Jellyfin-RPC v"@ + (match version {
            Some(v) => v@,
            None => "0.0.0"@,
        }),
{
    let base: String = "Jellyfin-RPC v".to_owned();
    match version {
        Some(v) => base.concat(v),
        None => base.concat("0.0.0"),
    }
}

/// Assembles the payload.  Pure and deterministic; the button list is
/// defensively truncated to the two-button cap.
pub fn build(
    state_message: &str,
    details: &str,
    end_time: Option<i64>,
    image_url: &str,
    buttons: Vec<ButtonSlot>,
    tag_line: &str,
    media_type: MediaType,
) -> (p: ActivityPayload)
    ensures
        p.wf(),
        p.state_message@ == state_message@,
        p.details@ == details@,
        p.end_time == end_time,
        p.image_url@ == image_url@,
        p.tag_line@ == tag_line@,
        p.media_type == media_type,
        buttons@.len() <= 2 ==> p.buttons@ == buttons@,
        buttons@.len() > 2 ==> p.buttons@ == buttons@.subrange(0, 2),
    {
    let mut kept = buttons;
    let ghost before = kept@;
    kept.truncate(2);
    proof {
        if before.len() <= 2 {
            assert(kept@ =~= before);
        }
    }
    ActivityPayload {
        state_message: state_message.to_owned(),
        details: details.to_owned(),
        end_time,
        image_url: image_url.to_owned(),
        buttons: kept,
        tag_line: tag_line.to_owned(),
        media_type,
    }
}

} // verus!
