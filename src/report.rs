use vstd::prelude::*;
use vstd::string::StringExecFns;

use crate::update::UpdateAction;

verus! {

/// The character of the decimal digit `d`.
pub open spec fn digit_char(d: nat) -> char {
    if d == 0 { '0' }
    else if d == 1 { '1' }
    else if d == 2 { '2' }
    else if d == 3 { '3' }
    else if d == 4 { '4' }
    else if d == 5 { '5' }
    else if d == 6 { '6' }
    else if d == 7 { '7' }
    else if d == 8 { '8' }
    else { '9' }
}

/// `n` written in decimal, without leading zeros.
pub open spec fn decimal(n: nat) -> Seq<char>
    decreases n,
{
    if n < 10 {
        seq![digit_char(n)]
    } else {
        decimal(n / 10).push(digit_char(n % 10))
    }
}

/// The size of the download as the progress line shows it.
pub open spec fn total_text(total: Option<u64>) -> Seq<char> {
    match total {
        Some(t) => decimal(t as nat),
        None => "an unknown size"@,
    }
}

/// The console line that reports `action`, if it reports anything. An
/// error's line is the error's own text, which the library does not hold.
pub open spec fn report_text(action: UpdateAction) -> Option<Seq<char>> {
    match action {
        UpdateAction::ReportProgress { downloaded, total } => Some(
            "downloaded "@ + decimal(downloaded as nat) + " from "@ + total_text(total),
        ),
        UpdateAction::ReportDownloadFinished => Some("download finished"@),
        UpdateAction::ReportInstalledAndRestart => Some("update installed"@),
        _ => None,
    }
}

fn digit_str(d: u64) -> (r: &'static str)
    requires
        d < 10,
    ensures
        r@ == seq![digit_char(d as nat)],
{
    proof {
        reveal_strlit("0");
        reveal_strlit("1");
        reveal_strlit("2");
        reveal_strlit("3");
        reveal_strlit("4");
        reveal_strlit("5");
        reveal_strlit("6");
        reveal_strlit("7");
        reveal_strlit("8");
        reveal_strlit("9");
    }
    match d {
        0 => "0",
        1 => "1",
        2 => "2",
        3 => "3",
        4 => "4",
        5 => "5",
        6 => "6",
        7 => "7",
        8 => "8",
        _ => "9",
    }
}

/// Appends `n` in decimal to `out`.
pub fn push_decimal(out: &mut String, n: u64)
    ensures
        final(out)@ == old(out)@ + decimal(n as nat),
    decreases n,
{
    if n >= 10 {
        push_decimal(out, n / 10);
    }
    out.append(digit_str(n % 10));
    proof {
        if n >= 10 {
            assert(decimal(n as nat) == decimal((n / 10) as nat).push(digit_char((n % 10) as nat)));
        }
    }
    assert(out@ =~= old(out)@ + decimal(n as nat));
}

/// The console line for `action`: the running byte count, the end of the
/// download, or the installation; `None` for any other action.
pub fn report_line(action: UpdateAction) -> (r: Option<String>)
    ensures
        r matches Some(s) ==> report_text(action) == Some(s@),
        r is None <==> report_text(action) is None,
{
    match action {
        UpdateAction::ReportProgress { downloaded, total } => {
            let mut s = String::from_str("downloaded ");
            push_decimal(&mut s, downloaded);
            s.append(" from ");
            match total {
                Some(t) => push_decimal(&mut s, t),
                None => s.append("an unknown size"),
            }
            Some(s)
        },
        UpdateAction::ReportDownloadFinished => Some(String::from_str("download finished")),
        UpdateAction::ReportInstalledAndRestart => Some(String::from_str("update installed")),
        _ => None,
    }
}

} // verus!
