//! The exam overlay: what the shell shows above the exam portal (participant,
//! deadline, session) and where it returns when the exam ends. The portal
//! hands these values over in the query and fragment of the URLs it visits.

use vstd::prelude::*;
use crate::text::{blank, chars_of, is_blank, same_text};
use crate::web_url::{form_urlencoded_pairs, pairs_view, spec_form_urlencoded_parse, UrlModel, WebUrl};

verus! {

pub const RETURN_TO_LAUNCHER_HOST: &'static str = "return.examuq.invalid";

pub const RETURN_TO_LAUNCHER_PATH: &'static str = "/launcher";

pub struct ExamOverlayState {
    pub session_id: String,
    pub display_name: String,
    pub deadline_at: String,
    pub return_url: String,
    pub api_base: String,
}

/// The text of each overlay field.
pub struct OverlayView {
    pub session_id: Seq<char>,
    pub display_name: Seq<char>,
    pub deadline_at: Seq<char>,
    pub return_url: Seq<char>,
    pub api_base: Seq<char>,
}

impl View for ExamOverlayState {
    type V = OverlayView;

    open spec fn view(&self) -> OverlayView {
        OverlayView {
            session_id: self.session_id@,
            display_name: self.display_name@,
            deadline_at: self.deadline_at@,
            return_url: self.return_url@,
            api_base: self.api_base@,
        }
    }
}

pub open spec fn opt_overlay_view(o: Option<ExamOverlayState>) -> Option<OverlayView> {
    match o {
        Some(x) => Some(x@),
        None => None,
    }
}

/// The address that sends the shell back to its launcher.
pub open spec fn return_to_launcher_url_text() -> Seq<char> {
    "https://"@ + RETURN_TO_LAUNCHER_HOST@ + RETURN_TO_LAUNCHER_PATH@
}

/// The overlay shown before the portal has said anything.
pub open spec fn default_overlay() -> OverlayView {
    OverlayView {
        session_id: Seq::empty(),
        display_name: "Peserta"@,
        deadline_at: Seq::empty(),
        return_url: return_to_launcher_url_text(),
        api_base: Seq::empty(),
    }
}

pub fn default_exam_overlay_state() -> (r: ExamOverlayState)
    ensures
        r@ == default_overlay(),
{
    let mut return_url = String::from_str("https://");
    return_url.append(RETURN_TO_LAUNCHER_HOST);
    return_url.append(RETURN_TO_LAUNCHER_PATH);
    ExamOverlayState {
        session_id: String::new(),
        display_name: String::from_str("Peserta"),
        deadline_at: String::new(),
        return_url,
        api_base: String::new(),
    }
}

/// A field after merging: the incoming text, unless it is blank.
pub open spec fn pick(current: Seq<char>, incoming: Seq<char>) -> Seq<char> {
    if is_blank(incoming) {
        current
    } else {
        incoming
    }
}

/// The overlay after merging `incoming` into `existing` (the default when there
/// is none): each non-blank incoming field replaces the existing one.
pub open spec fn merge_overlay(existing: Option<OverlayView>, incoming: OverlayView) -> OverlayView {
    let base = match existing {
        Some(e) => e,
        None => default_overlay(),
    };
    OverlayView {
        session_id: pick(base.session_id, incoming.session_id),
        display_name: pick(base.display_name, incoming.display_name),
        deadline_at: pick(base.deadline_at, incoming.deadline_at),
        return_url: pick(base.return_url, incoming.return_url),
        api_base: pick(base.api_base, incoming.api_base),
    }
}

pub fn merge_exam_overlay_state(existing: Option<ExamOverlayState>, incoming: ExamOverlayState) -> (r:
    ExamOverlayState)
    ensures
        r@ == merge_overlay(opt_overlay_view(existing), incoming@),
{
    let mut merged = match existing {
        Some(e) => e,
        None => default_exam_overlay_state(),
    };
    if !blank(incoming.session_id.as_str()) {
        merged.session_id = incoming.session_id;
    }
    if !blank(incoming.display_name.as_str()) {
        merged.display_name = incoming.display_name;
    }
    if !blank(incoming.deadline_at.as_str()) {
        merged.deadline_at = incoming.deadline_at;
    }
    if !blank(incoming.return_url.as_str()) {
        merged.return_url = incoming.return_url;
    }
    if !blank(incoming.api_base.as_str()) {
        merged.api_base = incoming.api_base;
    }
    merged
}

/// Merging an overlay into itself changes nothing.
pub proof fn law_merge_into_itself(x: OverlayView)
    ensures
        merge_overlay(Some(x), x) == x,
{
}

/// An incoming overlay whose fields are all blank leaves the existing one
/// (or the default) as it is.
pub proof fn law_merge_blank_incoming(existing: Option<OverlayView>, incoming: OverlayView)
    requires
        is_blank(incoming.session_id),
        is_blank(incoming.display_name),
        is_blank(incoming.deadline_at),
        is_blank(incoming.return_url),
        is_blank(incoming.api_base),
    ensures
        merge_overlay(existing, incoming) == match existing {
            Some(e) => e,
            None => default_overlay(),
        },
{
}

/// Merging the same incoming overlay a second time changes nothing.
pub proof fn law_merge_twice(existing: Option<OverlayView>, incoming: OverlayView)
    ensures
        merge_overlay(Some(merge_overlay(existing, incoming)), incoming) == merge_overlay(
            existing,
            incoming,
        ),
{
}

/// The value of the last pair named `key`, or the empty text when none is.
pub open spec fn last_value(pairs: Seq<(Seq<char>, Seq<char>)>, key: Seq<char>) -> Seq<char>
    decreases pairs.len(),
{
    if pairs.len() == 0 {
        Seq::empty()
    } else if pairs.last().0 == key {
        pairs.last().1
    } else {
        last_value(pairs.drop_last(), key)
    }
}

/// The value of the first pair named `key`.
pub open spec fn first_value(pairs: Seq<(Seq<char>, Seq<char>)>, key: Seq<char>) -> Option<Seq<char>>
    decreases pairs.len(),
{
    if pairs.len() == 0 {
        None
    } else if pairs[0].0 == key {
        Some(pairs[0].1)
    } else {
        first_value(pairs.drop_first(), key)
    }
}

/// The decoded pairs of an optional URL component.
pub open spec fn component_pairs(c: Option<Seq<char>>) -> Seq<(Seq<char>, Seq<char>)> {
    match c {
        Some(t) => spec_form_urlencoded_parse(t),
        None => Seq::empty(),
    }
}

/// The pairs that carry overlay values: those of the query, then those of the fragment.
pub open spec fn overlay_pairs(u: UrlModel) -> Seq<(Seq<char>, Seq<char>)> {
    component_pairs(u.query) + component_pairs(u.fragment)
}

/// The overlay fields as the last occurrence of each `examuq_*` pair gives them.
pub open spec fn overlay_from_pairs(pairs: Seq<(Seq<char>, Seq<char>)>) -> OverlayView {
    OverlayView {
        session_id: last_value(pairs, "examuq_session_id"@),
        display_name: last_value(pairs, "examuq_display_name"@),
        deadline_at: last_value(pairs, "examuq_deadline_at"@),
        return_url: last_value(pairs, "examuq_return_url"@),
        api_base: last_value(pairs, "examuq_api_base"@),
    }
}

/// The overlay that a portal URL carries: present when it names a session
/// and a return address.
pub open spec fn overlay_of_url(u: UrlModel) -> Option<OverlayView> {
    let o = overlay_from_pairs(overlay_pairs(u));
    if is_blank(o.session_id) || is_blank(o.return_url) {
        None
    } else {
        Some(o)
    }
}

proof fn lemma_last_value_push(p: Seq<(Seq<char>, Seq<char>)>, x: (Seq<char>, Seq<char>), key: Seq<
    char,
>)
    ensures
        last_value(p.push(x), key) == if x.0 == key {
            x.1
        } else {
            last_value(p, key)
        },
{
    assert(p.push(x).drop_last() =~= p);
}

fn apply_overlay_pairs(acc: &mut ExamOverlayState, pairs: &Vec<(String, String)>, Ghost(prior): Ghost<
    Seq<(Seq<char>, Seq<char>)>,
>)
    requires
        old(acc)@ == overlay_from_pairs(prior),
    ensures
        final(acc)@ == overlay_from_pairs(prior + pairs_view(pairs@)),
{
    let mut i: usize = 0;
    while i < pairs.len()
        invariant
            i <= pairs@.len(),
            acc@ == overlay_from_pairs(prior + pairs_view(pairs@).take(i as int)),
        decreases pairs@.len() - i,
    {
        let ghost before = prior + pairs_view(pairs@).take(i as int);
        let ghost x = pairs_view(pairs@)[i as int];
        assert(prior + pairs_view(pairs@).take(i + 1) =~= before.push(x));
        proof {
            reveal_strlit("examuq_session_id");
            reveal_strlit("examuq_display_name");
            reveal_strlit("examuq_deadline_at");
            reveal_strlit("examuq_return_url");
            reveal_strlit("examuq_api_base");
            assert("examuq_session_id"@[7] != "examuq_return_url"@[7]);
            assert("examuq_session_id"@.len() == 17);
            assert("examuq_display_name"@.len() == 19);
            assert("examuq_deadline_at"@.len() == 18);
            assert("examuq_return_url"@.len() == 17);
            assert("examuq_api_base"@.len() == 15);
            lemma_last_value_push(before, x, "examuq_session_id"@);
            lemma_last_value_push(before, x, "examuq_display_name"@);
            lemma_last_value_push(before, x, "examuq_deadline_at"@);
            lemma_last_value_push(before, x, "examuq_return_url"@);
            lemma_last_value_push(before, x, "examuq_api_base"@);
        }
        assert(x == (pairs@[i as int].0@, pairs@[i as int].1@));
        let key = chars_of(pairs[i].0.as_str());
        let value = pairs[i].1.clone();
        if same_text(&key, "examuq_session_id") {
            acc.session_id = value;
        } else if same_text(&key, "examuq_display_name") {
            acc.display_name = value;
        } else if same_text(&key, "examuq_deadline_at") {
            acc.deadline_at = value;
        } else if same_text(&key, "examuq_return_url") {
            acc.return_url = value;
        } else if same_text(&key, "examuq_api_base") {
            acc.api_base = value;
        }
        i = i + 1;
    }
    assert(pairs_view(pairs@).take(pairs@.len() as int) =~= pairs_view(pairs@));
}

fn component_pairs_of(c: Option<String>) -> (r: Vec<(String, String)>)
    ensures
        pairs_view(r@) == component_pairs(match c {
            Some(t) => Some(t@),
            None => None,
        }),
{
    match c {
        Some(t) => form_urlencoded_pairs(t.as_str()),
        None => {
            let r: Vec<(String, String)> = Vec::new();
            assert(pairs_view(r@) =~= Seq::<(Seq<char>, Seq<char>)>::empty());
            r
        },
    }
}

/// The overlay that a portal URL carries in its query and fragment.
pub fn parse_overlay_state_from_url(url: &WebUrl) -> (r: Option<ExamOverlayState>)
    ensures
        opt_overlay_view(r) == overlay_of_url(url@),
{
    let mut acc = ExamOverlayState {
        session_id: String::new(),
        display_name: String::new(),
        deadline_at: String::new(),
        return_url: String::new(),
        api_base: String::new(),
    };
    let ghost empty = Seq::<(Seq<char>, Seq<char>)>::empty();
    assert(acc@ == overlay_from_pairs(empty));
    let query_pairs = component_pairs_of(url.query());
    apply_overlay_pairs(&mut acc, &query_pairs, Ghost(empty));
    let fragment_pairs = component_pairs_of(url.fragment());
    apply_overlay_pairs(&mut acc, &fragment_pairs, Ghost(empty + pairs_view(query_pairs@)));
    assert(empty + pairs_view(query_pairs@) + pairs_view(fragment_pairs@) =~= overlay_pairs(url@));
    if blank(acc.session_id.as_str()) || blank(acc.return_url.as_str()) {
        return None;
    }
    Some(acc)
}

/// Whether a URL is the address that sends the shell back to its launcher.
pub open spec fn is_return_url(u: UrlModel) -> bool {
    u.scheme == "https"@ && u.host == Some(RETURN_TO_LAUNCHER_HOST@) && u.path
        == RETURN_TO_LAUNCHER_PATH@
}

pub fn is_return_to_launcher_url(url: &WebUrl) -> (r: bool)
    ensures
        r == is_return_url(url@),
{
    if !same_text(&chars_of(url.scheme().as_str()), "https") {
        return false;
    }
    match url.host_str() {
        Some(h) => {
            if !same_text(&chars_of(h.as_str()), RETURN_TO_LAUNCHER_HOST) {
                return false;
            }
        },
        None => return false,
    }
    same_text(&chars_of(url.path().as_str()), RETURN_TO_LAUNCHER_PATH)
}

pub open spec fn default_return_message() -> Seq<char> {
    "Mode ujian dihentikan dan kembali ke halaman awal."@
}

/// The message that a return address carries: its first `message` pair, unless
/// that is blank.
pub open spec fn return_message(u: UrlModel) -> Seq<char> {
    let pairs = spec_form_urlencoded_parse(
        match u.query {
            Some(q) => q,
            None => ""@,
        },
    );
    match first_value(pairs, "message"@) {
        Some(m) => if is_blank(m) {
            default_return_message()
        } else {
            m
        },
        None => default_return_message(),
    }
}

pub fn return_message_from_url(url: &WebUrl) -> (r: String)
    ensures
        r@ == return_message(url@),
{
    let pairs = match url.query() {
        Some(q) => form_urlencoded_pairs(q.as_str()),
        None => form_urlencoded_pairs(""),
    };
    let ghost pv = pairs_view(pairs@);
    assert(pv.skip(0) =~= pv);
    let mut i: usize = 0;
    while i < pairs.len()
        invariant
            i <= pairs@.len(),
            pv == pairs_view(pairs@),
            pv == spec_form_urlencoded_parse(
                match url@.query {
                    Some(q) => q,
                    None => ""@,
                },
            ),
            first_value(pv, "message"@) == first_value(pv.skip(i as int), "message"@),
        decreases pairs@.len() - i,
    {
        assert(pv.skip(i as int).drop_first() =~= pv.skip(i + 1));
        assert(pv.skip(i as int)[0] == (pairs@[i as int].0@, pairs@[i as int].1@));
        if same_text(&chars_of(pairs[i].0.as_str()), "message") {
            let m = pairs[i].1.clone();
            if blank(m.as_str()) {
                return String::from_str("Mode ujian dihentikan dan kembali ke halaman awal.");
            }
            return m;
        }
        i = i + 1;
    }
    String::from_str("Mode ujian dihentikan dan kembali ke halaman awal.")
}

/// Every non-blank incoming field wins the merge, and every blank one keeps
/// the field that was there (the default's when nothing was stored).
pub proof fn law_merge_fieldwise(existing: Option<OverlayView>, incoming: OverlayView)
    ensures
        ({
            let base = match existing {
                Some(e) => e,
                None => default_overlay(),
            };
            let m = merge_overlay(existing, incoming);
            &&& !is_blank(incoming.session_id) ==> m.session_id == incoming.session_id
            &&& !is_blank(incoming.display_name) ==> m.display_name == incoming.display_name
            &&& !is_blank(incoming.deadline_at) ==> m.deadline_at == incoming.deadline_at
            &&& !is_blank(incoming.return_url) ==> m.return_url == incoming.return_url
            &&& !is_blank(incoming.api_base) ==> m.api_base == incoming.api_base
            &&& is_blank(incoming.session_id) ==> m.session_id == base.session_id
            &&& is_blank(incoming.display_name) ==> m.display_name == base.display_name
            &&& is_blank(incoming.deadline_at) ==> m.deadline_at == base.deadline_at
            &&& is_blank(incoming.return_url) ==> m.return_url == base.return_url
            &&& is_blank(incoming.api_base) ==> m.api_base == base.api_base
        }),
{
}

/// A portal URL carries an overlay exactly when its last `examuq_session_id`
/// and last `examuq_return_url` pairs (query first, then fragment) are not
/// blank, whatever the other pairs hold; the overlay's fields are then the
/// last value given for each key.
pub proof fn law_overlay_present_exactly_with_session_and_return(u: UrlModel)
    ensures
        ({
            let pairs = component_pairs(u.query) + component_pairs(u.fragment);
            let session = last_value(pairs, "examuq_session_id"@);
            let ret = last_value(pairs, "examuq_return_url"@);
            &&& (overlay_of_url(u) is Some) == (!is_blank(session) && !is_blank(ret))
            &&& overlay_of_url(u) matches Some(o) ==> {
                &&& o.session_id == session
                &&& o.return_url == ret
                &&& o.display_name == last_value(pairs, "examuq_display_name"@)
                &&& o.deadline_at == last_value(pairs, "examuq_deadline_at"@)
                &&& o.api_base == last_value(pairs, "examuq_api_base"@)
            }
        }),
{
}

} // verus!
