//! Desktop notifications through PowerShell's BurntToast module.
use vstd::prelude::*;

verus! {

/// `s` with every single quote doubled.
pub open spec fn quote_escape_spec(s: Seq<char>) -> Seq<char>
    decreases s.len(),
{
    if s.len() == 0 {
        seq![]
    } else if s.last() == '\'' {
        quote_escape_spec(s.drop_last()) + seq!['\'', '\'']
    } else {
        quote_escape_spec(s.drop_last()).push(s.last())
    }
}

/// Escapes a text for use between single quotes in PowerShell: every single quote is doubled.
/// Typographic quotes are left as they are.
pub fn ps_single_quote_escape(s: &str) -> (r: String)
    ensures
        r@ == quote_escape_spec(s@),
{
    let mut out = String::new();
    for c in it: s.chars()
        invariant
            it.seq() == s@,
            out@ =~= quote_escape_spec(s@.take(it.index())),
    {
        let ghost done = s@.take(it.index() + 1);
        assert(done.drop_last() =~= s@.take(it.index()));
        assert(done.last() == c);
        if c == '\'' {
            out.push('\'');
        }
        out.push(c);
    }
    assert(s@.take(s@.len() as int) =~= s@);
    out
}

/// What stands behind the opening quote of a single-quoted literal: the content, in which a doubled
/// quote is one quote, and what follows the closing quote. Nothing without a closing quote. Only the
/// straight quote counts as one.
pub open spec fn read_quoted(s: Seq<char>) -> Option<(Seq<char>, Seq<char>)>
    decreases s.len(),
{
    if s.len() == 0 {
        None
    } else if s[0] != '\'' {
        match read_quoted(s.skip(1)) {
            Some((content, rest)) => Some((seq![s[0]] + content, rest)),
            None => None,
        }
    } else if s.len() > 1 && s[1] == '\'' {
        match read_quoted(s.skip(2)) {
            Some((content, rest)) => Some((seq!['\''] + content, rest)),
            None => None,
        }
    } else {
        Some((seq![], s.skip(1)))
    }
}

/// An escaped text between single quotes reads back as the text, whatever follows the closing quote
/// as long as that is not another quote.
pub proof fn escaped_text_reads_back(s: Seq<char>, rest: Seq<char>)
    requires
        rest.len() == 0 || rest[0] != '\'',
    ensures
        read_quoted(quote_escape_spec(s) + seq!['\''] + rest) == Some((s, rest)),
{
    let tail = seq!['\''] + rest;
    assert(tail.skip(1) =~= rest);
    assert(read_quoted(tail) == Some((Seq::<char>::empty(), rest)));
    read_quoted_through(s, tail, Seq::<char>::empty(), rest);
    assert(quote_escape_spec(s) + tail =~= quote_escape_spec(s) + seq!['\''] + rest);
    assert(s + Seq::<char>::empty() =~= s);
}

/// Escaped text in front of what reads as `content` puts its own text in front of `content`.
proof fn read_quoted_through(s: Seq<char>, tail: Seq<char>, content: Seq<char>, rest: Seq<char>)
    requires
        read_quoted(tail) == Some((content, rest)),
    ensures
        read_quoted(quote_escape_spec(s) + tail) == Some((s + content, rest)),
    decreases s.len(),
{
    if s.len() == 0 {
        assert(quote_escape_spec(s) + tail =~= tail);
        assert(s + content =~= content);
    } else {
        let c = s.last();
        let head = s.drop_last();
        let mark = if c == '\'' {
            seq!['\'', '\'']
        } else {
            seq![c]
        };
        let longer = mark + tail;
        assert(longer.skip(mark.len() as int) =~= tail);
        assert(read_quoted(longer) == Some((seq![c] + content, rest)));
        read_quoted_through(head, longer, seq![c] + content, rest);
        assert(quote_escape_spec(s) + tail =~= quote_escape_spec(head) + longer);
        assert(head + (seq![c] + content) =~= s + content);
    }
}

/// The script that shows a notification.
pub open spec fn notification_script_spec(title: Seq<char>, body: Option<Seq<char>>) -> Seq<char> {
    let lead = "if (-not (Get-Module -ListAvailable -Name BurntToast)) { exit 1 };New-BurntToastNotification -Text '"@;
    match body {
        Some(b) => if b.len() > 0 {
            lead + quote_escape_spec(title) + "','"@ + quote_escape_spec(b) + "'"@
        } else {
            lead + quote_escape_spec(title) + "'"@
        },
        None => lead + quote_escape_spec(title) + "'"@,
    }
}

/// The text of an optional body.
pub open spec fn body_text(body: Option<&str>) -> Option<Seq<char>> {
    match body {
        Some(b) => Some(b@),
        None => None,
    }
}

/// The PowerShell script that shows a notification. It exits with an error where BurntToast is not
/// installed; an empty body counts as none.
pub fn notification_script(title: &str, body: Option<&str>) -> (script: String)
    ensures
        script@ == notification_script_spec(title@, body_text(body)),
{
    let mut script = String::new();
    script.append(
        "if (-not (Get-Module -ListAvailable -Name BurntToast)) { exit 1 };New-BurntToastNotification -Text '",
    );
    script.append(ps_single_quote_escape(title).as_str());
    if let Some(b) = body {
        if !b.is_empty() {
            script.append("','");
            script.append(ps_single_quote_escape(b).as_str());
        }
    }
    script.append("'");
    script
}

/// What a notification's run means: it was shown when the script ran and succeeded, and else it was
/// not. A launch that failed is no error.
pub open spec fn notification_shown<E>(run: Result<bool, E>) -> bool {
    run matches Ok(success) && success
}

/// Turns the run of a notification script into the notification's outcome.
pub fn notification_outcome<E>(run: Result<bool, E>) -> (outcome: Result<bool, E>)
    ensures
        outcome == Ok::<bool, E>(notification_shown(run)),
{
    match run {
        Ok(success) => Ok(success),
        Err(_) => Ok(false),
    }
}

/// Shows a desktop notification. `run` runs a PowerShell script and tells whether it succeeded, or
/// why it could not be launched.
///
/// Without a title nothing is shown and nothing is run. A host without BurntToast, or one that
/// cannot run PowerShell, shows nothing either; that is never an error.
pub fn show_desktop_notification<E, F: FnOnce(&str) -> Result<bool, E>>(
    title: &str,
    body: Option<&str>,
    run: F,
) -> (shown: Result<bool, E>)
    requires
        title@.len() > 0 ==> forall|script: &str|
            script@ == notification_script_spec(title@, body_text(body)) ==> #[trigger]
            call_requires(run, (script,)),
    ensures
        shown is Ok,
        title@.len() == 0 ==> shown == Ok::<bool, E>(false),
        title@.len() > 0 ==> exists|script: &str, ran: Result<bool, E>|
            {
                &&& script@ == notification_script_spec(title@, body_text(body))
                &&& #[trigger] call_ensures(run, (script,), ran)
                &&& shown == Ok::<bool, E>(notification_shown(ran))
            },
{
    if title.is_empty() {
        return Ok(false);
    }
    let script = notification_script(title, body);
    notification_outcome(run(script.as_str()))
}

/// The script quotes the very title and body: behind the fixed lead, its single-quoted literals read
/// back as the two texts.
pub proof fn script_quotes_its_texts(title: Seq<char>, body: Seq<char>)
    requires
        body.len() > 0,
    ensures
        ({
            let lead = "if (-not (Get-Module -ListAvailable -Name BurntToast)) { exit 1 };New-BurntToastNotification -Text '"@;
            let script = notification_script_spec(title, Some(body));
            let literals = script.skip(lead.len() as int);
            let second = ",'"@ + quote_escape_spec(body) + "'"@;
            &&& read_quoted(literals) == Some((title, second))
            &&& read_quoted(second.skip(2)) == Some((body, Seq::<char>::empty()))
            &&& read_quoted(notification_script_spec(title, None).skip(lead.len() as int)) == Some(
                (title, Seq::<char>::empty()),
            )
        }),
{
    reveal_strlit("','");
    reveal_strlit(",'");
    reveal_strlit("'");
    let lead = "if (-not (Get-Module -ListAvailable -Name BurntToast)) { exit 1 };New-BurntToastNotification -Text '"@;
    let second = ",'"@ + quote_escape_spec(body) + "'"@;
    let none = Seq::<char>::empty();
    let script = notification_script_spec(title, Some(body));
    assert(script.skip(lead.len() as int) =~= quote_escape_spec(title) + seq!['\''] + second);
    escaped_text_reads_back(title, second);
    assert(second.skip(2) =~= quote_escape_spec(body) + seq!['\''] + none);
    escaped_text_reads_back(body, none);
    assert(notification_script_spec(title, None).skip(lead.len() as int) =~= quote_escape_spec(
        title,
    ) + seq!['\''] + none);
    escaped_text_reads_back(title, none);
}

/// Escaping doubles each single quote and keeps every other character, in order: of two texts in a
/// row it is the escape of the first and then that of the second.
pub proof fn escaping_is_character_by_character(a: Seq<char>, b: Seq<char>)
    ensures
        quote_escape_spec(a + b) == quote_escape_spec(a) + quote_escape_spec(b),
    decreases b.len(),
{
    if b.len() == 0 {
        assert(a + b =~= a);
        assert(quote_escape_spec(a) + quote_escape_spec(b) =~= quote_escape_spec(a));
    } else {
        escaping_is_character_by_character(a, b.drop_last());
        assert((a + b).drop_last() =~= a + b.drop_last());
        assert((a + b).last() == b.last());
        assert(quote_escape_spec(a + b) =~= quote_escape_spec(a) + quote_escape_spec(b));
    }
}

/// The escape of one character: two quotes for a quote, and the character itself for any other.
pub proof fn quotes_are_doubled(c: char)
    ensures
        c == '\'' ==> quote_escape_spec(seq![c]) == seq!['\'', '\''],
        c != '\'' ==> quote_escape_spec(seq![c]) == seq![c],
{
    reveal_with_fuel(quote_escape_spec, 2);
    let one = seq![c];
    assert(one.drop_last() =~= Seq::<char>::empty());
    assert(one.last() == c);
    assert(c == '\'' ==> quote_escape_spec(one) =~= seq!['\'', '\'']);
    assert(c != '\'' ==> quote_escape_spec(one) =~= seq![c]);
}

/// A notification's script gives up where BurntToast is missing, and else shows the title, and the
/// body behind it where there is one. An empty body is none.
pub proof fn scripts_show_title_and_body(title: Seq<char>, body: Option<Seq<char>>)
    ensures
        ({
            let check = "if (-not (Get-Module -ListAvailable -Name BurntToast)) { exit 1 };New-BurntToastNotification -Text '"@;
            let script = notification_script_spec(title, body);
            let shown = quote_escape_spec(title);
            let bare = body is None || body->0.len() == 0;
            &&& check.is_prefix_of(script)
            &&& bare ==> script.skip(check.len() as int) == shown + seq!['\'']
            &&& !bare ==> script.skip(check.len() as int) == shown + seq!['\'', ',', '\'']
                + quote_escape_spec(body->0) + seq!['\'']
        }),
{
    reveal_strlit("','");
    reveal_strlit("'");
    let check = "if (-not (Get-Module -ListAvailable -Name BurntToast)) { exit 1 };New-BurntToastNotification -Text '"@;
    let script = notification_script_spec(title, body);
    let shown = quote_escape_spec(title);
    assert("','"@ =~= seq!['\'', ',', '\'']);
    assert("'"@ =~= seq!['\'']);
    assert(script.subrange(0, check.len() as int) =~= check);
    if body is None || body->0.len() == 0 {
        assert(script.skip(check.len() as int) =~= shown + seq!['\'']);
    } else {
        assert(script.skip(check.len() as int) =~= shown + seq!['\'', ',', '\'']
            + quote_escape_spec(body->0) + seq!['\'']);
    }
}

/// A notification was shown exactly where its script ran and succeeded.
pub proof fn shown_means_ran_and_succeeded<E>(run: Result<bool, E>)
    ensures
        notification_shown(run) <==> run == Ok::<bool, E>(true),
{
}

} // verus!
