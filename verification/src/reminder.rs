//! The reminder generator.
//!
//! A reminder for a food item is a calendar event one day before expiry
//! at 09:00 with a one-hour duration.  When an authorized calendar
//! client exists the caller attempts the provider call and hands its
//! outcome back; in every other case — no stored credential, or a failed
//! call — the generator deterministically builds deep-link URLs for two
//! calendar providers plus a human-readable summary, so the caller always
//! receives something actionable and never a hard failure.

use crate::date::{spec_compact_stamp, spec_human_date, spec_iso_date, spec_iso_stamp, Date};
use crate::models::FoodStock;
use crate::text::{append_chars, append_str, chars_to_string, str_to_chars};
use vstd::prelude::*;

verus! {

/// How one character is written inside a link: the fixed set space,
/// `!`, `(`, `)`, `,`, `:` and `'` is percent-escaped, everything else
/// passes through unchanged.
pub open spec fn spec_encode_char(c: char) -> Seq<char> {
    if c == ' ' {
        "%20"@
    } else if c == '!' {
        "%21"@
    } else if c == '(' {
        "%28"@
    } else if c == ')' {
        "%29"@
    } else if c == ',' {
        "%2C"@
    } else if c == ':' {
        "%3A"@
    } else if c == '\'' {
        "%27"@
    } else {
        seq![c]
    }
}

/// The percent-escaped form of `s`.
pub open spec fn spec_url_encode(s: Seq<char>) -> Seq<char>
    decreases s.len(),
{
    if s.len() == 0 {
        Seq::empty()
    } else {
        spec_encode_char(s[0]) + spec_url_encode(s.drop_first())
    }
}

/// Escaping processes the text character by character, so the last
/// character's escape comes last.
pub proof fn lemma_url_encode_snoc(s: Seq<char>)
    requires
        s.len() > 0,
    ensures
        spec_url_encode(s) == spec_url_encode(s.drop_last()) + spec_encode_char(s.last()),
    decreases s.len(),
{
    if s.len() == 1 {
        assert(s.drop_first() =~= Seq::<char>::empty());
        assert(s.drop_last() =~= Seq::<char>::empty());
        assert(spec_url_encode(s) =~= spec_url_encode(s.drop_last()) + spec_encode_char(s.last()));
    } else {
        let d = s.drop_first();
        lemma_url_encode_snoc(d);
        assert(s.drop_last().drop_first() =~= d.drop_last());
        assert(s.drop_last().len() > 0);
        assert(spec_url_encode(s.drop_last()) == spec_encode_char(s[0]) + spec_url_encode(
            d.drop_last(),
        ));
        assert(spec_url_encode(s) == spec_encode_char(s[0]) + (spec_url_encode(d.drop_last())
            + spec_encode_char(d.last())));
        assert(spec_encode_char(s[0]) + (spec_url_encode(d.drop_last()) + spec_encode_char(
            d.last(),
        )) =~= (spec_encode_char(s[0]) + spec_url_encode(d.drop_last())) + spec_encode_char(
            s.last(),
        ));
    }
}

/// Appends the percent-escaped form of `s`.
pub fn push_url_encoded(out: &mut Vec<char>, s: &Vec<char>)
    ensures
        final(out)@ == old(out)@ + spec_url_encode(s@),
{
    let n = s.len();
    let mut i: usize = 0;
    proof {
        assert(s@.take(0) =~= Seq::<char>::empty());
        assert(out@ =~= old(out)@ + spec_url_encode(s@.take(0)));
    }
    while i < n
        invariant
            i <= n,
            n == s@.len(),
            out@ == old(out)@ + spec_url_encode(s@.take(i as int)),
        decreases n - i,
    {
        let c = s[i];
        if c == ' ' {
            append_str(out, "%20");
        } else if c == '!' {
            append_str(out, "%21");
        } else if c == '(' {
            append_str(out, "%28");
        } else if c == ')' {
            append_str(out, "%29");
        } else if c == ',' {
            append_str(out, "%2C");
        } else if c == ':' {
            append_str(out, "%3A");
        } else if c == '\'' {
            append_str(out, "%27");
        } else {
            out.push(c);
        }
        proof {
            let t = s@.take(i + 1 as int);
            assert(t.drop_last() =~= s@.take(i as int));
            assert(t.last() == s@[i as int]);
            lemma_url_encode_snoc(t);
            assert(out@ =~= old(out)@ + spec_url_encode(t));
        }
        i = i + 1;
    }
    proof {
        assert(s@.take(n as int) =~= s@);
    }
}

/// Percent-escapes the fixed character set of the link format.
pub fn simple_url_encode(s: &str) -> (r: String)
    ensures
        r@ == spec_url_encode(s@),
{
    let chars = str_to_chars(s);
    let mut out: Vec<char> = Vec::new();
    push_url_encoded(&mut out, &chars);
    chars_to_string(&out)
}

/// The event title of a reminder.
pub open spec fn spec_event_title(f: FoodStock) -> Seq<char> {
    "Check your "@ + f.name@ + " before it expires!"@
}

/// The event description of a reminder.
pub open spec fn spec_event_description(f: FoodStock) -> Seq<char> {
    "Your "@ + f.name@ + " ("@ + f.food_type.spec_display() + ", "@ + f.quantity.spec_display()
        + ", stored in "@ + f.storage_type.spec_display() + " storage) is expiring on "@
        + spec_iso_date(f.expiry_date) + ". Check freshness and plan to use it soon."@
}

/// The day the reminder fires: one day before expiry.
pub open spec fn spec_reminder_date(f: FoodStock) -> Date {
    f.expiry_date.prev()
}

/// The pre-filled "add event" link of the first calendar provider.
pub open spec fn spec_google_url(f: FoodStock) -> Seq<char> {
    "https://calendar.google.com/calendar/render?action=TEMPLATE&text="@ + spec_url_encode(
        spec_event_title(f),
    ) + "&dates="@ + spec_compact_stamp(spec_reminder_date(f), 9) + "/"@ + spec_compact_stamp(
        spec_reminder_date(f),
        10,
    ) + "&details="@ + spec_url_encode(spec_event_description(f)) + "&location="@
        + spec_url_encode("Kitchen/Pantry"@)
}

/// The pre-filled "add event" link of the second calendar provider.
pub open spec fn spec_outlook_url(f: FoodStock) -> Seq<char> {
    "https://outlook.live.com/calendar/0/deeplink/compose?subject="@ + spec_url_encode(
        spec_event_title(f),
    ) + "&startdt="@ + spec_iso_stamp(spec_reminder_date(f), 9) + "&enddt="@ + spec_iso_stamp(
        spec_reminder_date(f),
        10,
    ) + "&body="@ + spec_url_encode(spec_event_description(f)) + "&location="@ + spec_url_encode(
        "Kitchen/Pantry"@,
    )
}

/// The human-readable fallback summary with both links.
pub open spec fn spec_links_message(f: FoodStock) -> Seq<char> {
    "\u{1F4C5} **Calendar Reminder Links**\n\nClick any link below to add this reminder to your calendar:\n\n\u{1F517} **[Add to Google Calendar]("@
        + spec_google_url(f) + ")**\n\u{1F517} **[Add to Outlook Calendar]("@ + spec_outlook_url(f)
        + ")**\n\n**Event Details:**\n\u{2022} **Title:** "@ + spec_event_title(f)
        + "\n\u{2022} **Date:** "@ + spec_human_date(spec_reminder_date(f)) + " at 9:00 AM"@
        + "\n\u{2022} **Food:** "@ + f.name@ + " ("@ + f.food_type.spec_display() + ", "@
        + f.quantity.spec_display() + ")"@ + "\n\u{2022} **Storage:** "@
        + f.storage_type.spec_display() + " storage"@ + "\n\u{2022} **Expires:** "@ + spec_iso_date(
        f.expiry_date,
    )
        + "\n\n\u{1F4A1} **Tip:** Connect your Google Calendar in settings for automatic reminders!"@
}

/// Appends the event title.
fn push_title(out: &mut Vec<char>, f: &FoodStock)
    ensures
        final(out)@ == old(out)@ + spec_event_title(*f),
{
    append_str(out, "Check your ");
    append_str(out, f.name.as_str());
    append_str(out, " before it expires!");
}

/// Appends the event description.
fn push_description(out: &mut Vec<char>, f: &FoodStock)
    requires
        f.inv(),
    ensures
        final(out)@ == old(out)@ + spec_event_description(*f),
{
    append_str(out, "Your ");
    append_str(out, f.name.as_str());
    append_str(out, " (");
    f.food_type.push_display(out);
    append_str(out, ", ");
    f.quantity.push_display(out);
    append_str(out, ", stored in ");
    f.storage_type.push_display(out);
    append_str(out, " storage) is expiring on ");
    f.expiry_date.push_iso(out);
    append_str(out, ". Check freshness and plan to use it soon.");
}

/// Builds the first provider's link.
fn google_url_chars(f: &FoodStock) -> (r: Vec<char>)
    requires
        f.inv(),
        !f.expiry_date.is_min(),
    ensures
        r@ == spec_google_url(*f),
{
    let rd = f.expiry_date.prev_day();
    let mut title: Vec<char> = Vec::new();
    push_title(&mut title, f);
    let mut desc: Vec<char> = Vec::new();
    push_description(&mut desc, f);
    let location = str_to_chars("Kitchen/Pantry");
    let mut out: Vec<char> = Vec::new();
    append_str(&mut out, "https://calendar.google.com/calendar/render?action=TEMPLATE&text=");
    push_url_encoded(&mut out, &title);
    append_str(&mut out, "&dates=");
    rd.push_compact_stamp(&mut out, 9);
    append_str(&mut out, "/");
    rd.push_compact_stamp(&mut out, 10);
    append_str(&mut out, "&details=");
    push_url_encoded(&mut out, &desc);
    append_str(&mut out, "&location=");
    push_url_encoded(&mut out, &location);
    out
}

/// Builds the second provider's link.
fn outlook_url_chars(f: &FoodStock) -> (r: Vec<char>)
    requires
        f.inv(),
        !f.expiry_date.is_min(),
    ensures
        r@ == spec_outlook_url(*f),
{
    let rd = f.expiry_date.prev_day();
    let mut title: Vec<char> = Vec::new();
    push_title(&mut title, f);
    let mut desc: Vec<char> = Vec::new();
    push_description(&mut desc, f);
    let location = str_to_chars("Kitchen/Pantry");
    let mut out: Vec<char> = Vec::new();
    append_str(&mut out, "https://outlook.live.com/calendar/0/deeplink/compose?subject=");
    push_url_encoded(&mut out, &title);
    append_str(&mut out, "&startdt=");
    rd.push_iso_stamp(&mut out, 9);
    append_str(&mut out, "&enddt=");
    rd.push_iso_stamp(&mut out, 10);
    append_str(&mut out, "&body=");
    push_url_encoded(&mut out, &desc);
    append_str(&mut out, "&location=");
    push_url_encoded(&mut out, &location);
    out
}

/// Builds the fallback summary with both links.
pub fn generate_calendar_links(f: &FoodStock) -> (r: String)
    requires
        f.inv(),
        !f.expiry_date.is_min(),
    ensures
        r@ == spec_links_message(*f),
{
    let rd = f.expiry_date.prev_day();
    let google = google_url_chars(f);
    let outlook = outlook_url_chars(f);
    let mut title: Vec<char> = Vec::new();
    push_title(&mut title, f);
    let mut out: Vec<char> = Vec::new();
    append_str(
        &mut out,
        "\u{1F4C5} **Calendar Reminder Links**\n\nClick any link below to add this reminder to your calendar:\n\n\u{1F517} **[Add to Google Calendar](",
    );
    append_chars(&mut out, &google);
    append_str(&mut out, ")**\n\u{1F517} **[Add to Outlook Calendar](");
    append_chars(&mut out, &outlook);
    append_str(&mut out, ")**\n\n**Event Details:**\n\u{2022} **Title:** ");
    append_chars(&mut out, &title);
    append_str(&mut out, "\n\u{2022} **Date:** ");
    rd.push_human(&mut out);
    append_str(&mut out, " at 9:00 AM");
    append_str(&mut out, "\n\u{2022} **Food:** ");
    append_str(&mut out, f.name.as_str());
    append_str(&mut out, " (");
    f.food_type.push_display(&mut out);
    append_str(&mut out, ", ");
    f.quantity.push_display(&mut out);
    append_str(&mut out, ")");
    append_str(&mut out, "\n\u{2022} **Storage:** ");
    f.storage_type.push_display(&mut out);
    append_str(&mut out, " storage");
    append_str(&mut out, "\n\u{2022} **Expires:** ");
    f.expiry_date.push_iso(&mut out);
    append_str(
        &mut out,
        "\n\n\u{1F4A1} **Tip:** Connect your Google Calendar in settings for automatic reminders!",
    );
    chars_to_string(&out)
}

/// The provider-call payload of a reminder: the event title and
/// description, and the start and end stamps — 09:00 to 10:00 UTC one
/// day before expiry — for an application layer to wrap into the
/// calendar API's event.
pub fn event_payload(f: &FoodStock) -> (r: (String, String, String, String))
    requires
        f.inv(),
        !f.expiry_date.is_min(),
    ensures
        r.0@ == spec_event_title(*f),
        r.1@ == spec_event_description(*f),
        r.2@ == spec_iso_stamp(spec_reminder_date(*f), 9),
        r.3@ == spec_iso_stamp(spec_reminder_date(*f), 10),
{
    let rd = f.expiry_date.prev_day();
    let mut title: Vec<char> = Vec::new();
    push_title(&mut title, f);
    let mut desc: Vec<char> = Vec::new();
    push_description(&mut desc, f);
    let mut start: Vec<char> = Vec::new();
    rd.push_iso_stamp(&mut start, 9);
    let mut end: Vec<char> = Vec::new();
    rd.push_iso_stamp(&mut end, 10);
    (
        chars_to_string(&title),
        chars_to_string(&desc),
        chars_to_string(&start),
        chars_to_string(&end),
    )
}

/// The outcome of one reminder attempt.
#[derive(Debug)]
pub enum ReminderOutcome {
    /// The provider created the event; `link` is the event's address.
    EventCreated { link: String },
    /// No authorized client, or the provider call failed: both deep
    /// links and the summary.
    LinkFallback { google_url: String, outlook_url: String, message: String },
}

/// The mathematical image of a reminder outcome.
pub enum ReminderOutcomeView {
    Event { link: Seq<char> },
    Fallback { google_url: Seq<char>, outlook_url: Seq<char>, message: Seq<char> },
}

impl View for ReminderOutcome {
    type V = ReminderOutcomeView;

    open spec fn view(&self) -> ReminderOutcomeView {
        match self {
            ReminderOutcome::EventCreated { link } => ReminderOutcomeView::Event { link: link@ },
            ReminderOutcome::LinkFallback { google_url, outlook_url, message } =>
                ReminderOutcomeView::Fallback {
                google_url: google_url@,
                outlook_url: outlook_url@,
                message: message@,
            },
        }
    }
}

/// The fallback outcome of a food item.
pub open spec fn spec_fallback(f: FoodStock) -> ReminderOutcomeView {
    ReminderOutcomeView::Fallback {
        google_url: spec_google_url(f),
        outlook_url: spec_outlook_url(f),
        message: spec_links_message(f),
    }
}

/// What a reminder attempt yields: without a stored credential the
/// fallback comes straight away and no provider call is owed; with one,
/// a created event's link is passed through and any failure again yields
/// the fallback.
pub open spec fn spec_remind(
    f: FoodStock,
    stored_credential: Option<Seq<char>>,
    api_result: Option<Seq<char>>,
) -> ReminderOutcomeView {
    match stored_credential {
        None => spec_fallback(f),
        Some(_) => match api_result {
            Some(link) => ReminderOutcomeView::Event { link: link },
            None => spec_fallback(f),
        },
    }
}

/// Whether a reminder attempt should call the calendar provider at all:
/// only when a stored credential exists.
pub fn needs_api_call(stored_credential: &Option<String>) -> (r: bool)
    ensures
        r == (stored_credential is Some),
{
    match stored_credential {
        Some(_) => true,
        None => false,
    }
}

/// Builds the fallback outcome.
pub fn remind_fallback(f: &FoodStock) -> (r: ReminderOutcome)
    requires
        f.inv(),
        !f.expiry_date.is_min(),
    ensures
        r@ == spec_fallback(*f),
{
    let google = google_url_chars(f);
    let outlook = outlook_url_chars(f);
    let message = generate_calendar_links(f);
    ReminderOutcome::LinkFallback {
        google_url: chars_to_string(&google),
        outlook_url: chars_to_string(&outlook),
        message,
    }
}

/// Settles a reminder attempt.  `api_result` is the link of a created
/// event when the caller reached the provider and it succeeded, `None`
/// otherwise; with no stored credential the provider is never consulted
/// and the fallback is immediate.  This function never fails.
pub fn remind(
    f: &FoodStock,
    user_id: i32,
    stored_credential: &Option<String>,
    api_result: &Option<String>,
) -> (r: ReminderOutcome)
    requires
        f.inv(),
        !f.expiry_date.is_min(),
    ensures
        r@ == spec_remind(
            *f,
            match stored_credential {
                Some(c) => Some(c@),
                None => None,
            },
            match api_result {
                Some(l) => Some(l@),
                None => None,
            },
        ),
{
    let _ = user_id;
    match stored_credential {
        None => remind_fallback(f),
        Some(_) => match api_result {
            Some(link) => ReminderOutcome::EventCreated { link: link.clone() },
            None => remind_fallback(f),
        },
    }
}

/// A reminder without a stored credential always degrades to the link
/// fallback, whatever any provider call would have returned: the outcome
/// is the fallback, its links are exactly the two provider links, and
/// each link begins with its provider's address.
#[verifier::rlimit(80)]
pub proof fn lemma_reminder_fallback_total(f: FoodStock, api_result: Option<Seq<char>>)
    requires
        f.inv(),
        !f.expiry_date.is_min(),
    ensures
        spec_remind(f, None, api_result) == spec_fallback(f),
        spec_fallback(f) matches ReminderOutcomeView::Fallback { google_url, outlook_url, message }
            && google_url == spec_google_url(f) && outlook_url == spec_outlook_url(f) && message
            == spec_links_message(f),
        spec_google_url(f).take("https://calendar.google.com/"@.len() as int)
            == "https://calendar.google.com/"@,
        spec_outlook_url(f).take("https://outlook.live.com/"@.len() as int)
            == "https://outlook.live.com/"@,
{
    reveal_strlit("https://calendar.google.com/");
    reveal_strlit("https://calendar.google.com/calendar/render?action=TEMPLATE&text=");
    reveal_strlit("https://outlook.live.com/");
    reveal_strlit("https://outlook.live.com/calendar/0/deeplink/compose?subject=");
    assert(spec_google_url(f).take("https://calendar.google.com/"@.len() as int)
        =~= "https://calendar.google.com/"@);
    assert(spec_outlook_url(f).take("https://outlook.live.com/"@.len() as int)
        =~= "https://outlook.live.com/"@);
}

} // verus!
