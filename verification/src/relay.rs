//! The relay decisions: which launch arguments are accepted deep-link URLs,
//! and what the relay does to the main window for each activation signal.

use crate::schemes::views;
use vstd::prelude::*;

verus! {

/// The scheme of `s` when `s` parses as an absolute URL, `None` when it
/// does not, as `url::Url::parse` decides it.
pub uninterp spec fn parsed_scheme(s: Seq<char>) -> Option<Seq<char>>;

/// Relies on `url::Url::parse` and `url::Url::scheme`: whether a string
/// parses as an absolute URL, and what its scheme is, are functions of the
/// string alone.
#[verifier::external_body]
fn url_scheme(arg: &str) -> (r: Option<String>)
    ensures
        (r is Some) == (parsed_scheme(arg@) is Some),
        r matches Some(s) ==> parsed_scheme(arg@) == Some(s@),
{
    match url::Url::parse(arg) {
        Ok(u) => Some(u.scheme().to_string()),
        Err(_) => None,
    }
}

/// An argument is accepted by a non-empty scheme set when it parses as a
/// URL whose scheme is one of the set, by exact, case-sensitive comparison.
pub open spec fn arg_accepted(arg: Seq<char>, schemes: Seq<Seq<char>>) -> bool {
    parsed_scheme(arg) matches Some(sch) && schemes.contains(sch)
}

/// The accepted URL batch: with an empty scheme set every argument passes
/// through unchanged; otherwise the arguments that `arg_accepted` keeps,
/// in their original order.
pub open spec fn accepted(argv: Seq<Seq<char>>, schemes: Seq<Seq<char>>) -> Seq<Seq<char>> {
    if schemes.len() == 0 {
        argv
    } else {
        argv.filter(|a: Seq<char>| arg_accepted(a, schemes))
    }
}

/// True exactly when some string of `list` has the same characters as `s`.
pub fn contains_string(list: &Vec<String>, s: &String) -> (r: bool)
    ensures
        r == views(list@).contains(s@),
{
    let mut i: usize = 0;
    while i < list.len()
        invariant
            0 <= i <= list@.len(),
            forall|j: int| 0 <= j < i ==> views(list@)[j] != s@,
        decreases list@.len() - i,
    {
        let hit: bool = list[i] == *s;
        if hit {
            assert(views(list@)[i as int] == s@);
            return true;
        }
        i = i + 1;
    }
    false
}

/// Filters the launch arguments to the accepted URL batch.
pub fn accepted_urls(argv: &Vec<String>, schemes: &Vec<String>) -> (r: Vec<String>)
    ensures
        views(r@) == accepted(views(argv@), views(schemes@)),
{
    broadcast use vstd::seq_lib::group_filter_ensures;

    let mut r: Vec<String> = Vec::new();
    if schemes.len() == 0 {
        let mut i: usize = 0;
        while i < argv.len()
            invariant
                0 <= i <= argv@.len(),
                r@.len() == i,
                forall|j: int| 0 <= j < i ==> r@[j]@ == argv@[j]@,
            decreases argv@.len() - i,
        {
            r.push(argv[i].clone());
            i = i + 1;
        }
        proof {
            assert(views(r@) =~= views(argv@));
        }
    } else {
        let mut i: usize = 0;
        while i < argv.len()
            invariant
                0 <= i <= argv@.len(),
                schemes@.len() > 0,
                views(r@) == views(argv@.take(i as int)).filter(
                    |a: Seq<char>| arg_accepted(a, views(schemes@)),
                ),
            decreases argv@.len() - i,
        {
            let keep: bool = match url_scheme(argv[i].as_str()) {
                Some(sch) => contains_string(schemes, &sch),
                None => false,
            };
            assert(keep == arg_accepted(argv@[i as int]@, views(schemes@)));
            if keep {
                r.push(argv[i].clone());
            }
            proof {
                assert(argv@.take(i + 1) =~= argv@.take(i as int).push(argv@[i as int]));
                assert(views(argv@.take(i + 1)) =~= views(argv@.take(i as int)).push(
                    argv@[i as int]@,
                ));
                views(argv@.take(i as int)).lemma_filter_push(
                    argv@[i as int]@,
                    |a: Seq<char>| arg_accepted(a, views(schemes@)),
                );
                assert(views(r@) =~= views(argv@.take(i + 1)).filter(
                    |a: Seq<char>| arg_accepted(a, views(schemes@)),
                ));
            }
            i = i + 1;
        }
        proof {
            assert(argv@.take(argv@.len() as int) =~= argv@);
        }
    }
    r
}

/// What the relay asks the host runtime to do in response to one
/// activation signal.
pub enum RelayAction {
    /// The main window is absent: do nothing.
    Ignore,
    /// Show and focus the main window; there is no URL batch to deliver.
    Focus,
    /// Show and focus the main window, then emit the deep-link event on it
    /// with this non-empty batch of accepted URLs as payload.
    FocusAndEmit(Vec<String>),
}

/// Decides what a suppressed second launch does. `argv` is the raw argument
/// list of that launch, `schemes` the scheme set loaded at startup, and
/// `window_present` whether the main window was found in the host's window
/// registry. Without a window nothing happens; with one it is shown and
/// focused, and the accepted URL batch is emitted exactly when it is
/// non-empty.
pub fn on_relaunch(argv: &Vec<String>, schemes: &Vec<String>, window_present: bool) -> (a: RelayAction)
    ensures
        !window_present ==> a is Ignore,
        (window_present && accepted(views(argv@), views(schemes@)).len() == 0) ==> a is Focus,
        (window_present && accepted(views(argv@), views(schemes@)).len() > 0) ==> (a matches
            RelayAction::FocusAndEmit(urls) && views(urls@) == accepted(
            views(argv@),
            views(schemes@),
        )),
{
    if !window_present {
        return RelayAction::Ignore;
    }
    let urls = accepted_urls(argv, schemes);
    if urls.len() == 0 {
        RelayAction::Focus
    } else {
        RelayAction::FocusAndEmit(urls)
    }
}

/// Decides what a direct deep-link open does: show and focus the main
/// window when it is present, nothing otherwise. No URL batch travels on
/// this path; the host runtime delivers the opened URL through its own
/// channel.
pub fn on_deep_link_open(window_present: bool) -> (a: RelayAction)
    ensures
        window_present ==> a is Focus,
        !window_present ==> a is Ignore,
{
    if window_present {
        RelayAction::Focus
    } else {
        RelayAction::Ignore
    }
}

/// The name of the event carrying the accepted URL batch to the hosted UI.
pub fn deep_link_event_name() -> (r: &'static str)
    ensures
        r@ == "deep-link://new-url"@,
{
    "deep-link://new-url"
}

/// The fixed identifier under which the main window is looked up.
pub fn main_window_label() -> (r: &'static str)
    ensures
        r@ == "main"@,
{
    "main"
}

/// With an empty scheme set the relay accepts everything: the accepted URL
/// batch is the argument list itself, unchanged and in order.
pub proof fn lemma_accept_all(argv: Seq<Seq<char>>, schemes: Seq<Seq<char>>)
    requires
        schemes.len() == 0,
    ensures
        accepted(argv, schemes) == argv,
{
}

/// Against a non-empty scheme set, an argument list in which no argument
/// parses as a URL yields an empty accepted URL batch, so no event is
/// emitted for it.
pub proof fn lemma_unparseable_args_all_dropped(argv: Seq<Seq<char>>, schemes: Seq<Seq<char>>)
    requires
        schemes.len() > 0,
        forall|i: int| 0 <= i < argv.len() ==> parsed_scheme(#[trigger] argv[i]) is None,
    ensures
        accepted(argv, schemes) == Seq::<Seq<char>>::empty(),
    decreases argv.len(),
{
    reveal(Seq::filter);
    if argv.len() > 0 {
        assert(argv.drop_last() =~= argv.subrange(0, argv.len() - 1));
        lemma_unparseable_args_all_dropped(argv.drop_last(), schemes);
        assert(parsed_scheme(argv.last()) is None);
    } else {
        assert(argv =~= Seq::<Seq<char>>::empty());
    }
}

} // verus!
