//! Discovery of running meeting applications.
//!
//! The platform enumerates every running application that shares
//! content; this module keeps the rule deciding which of them count as
//! meeting applications worth offering as capture targets.

use vstd::prelude::*;
use vstd::string::StringExecFns;

verus! {

/// A running application that can be offered as a capture target.
#[derive(Debug)]
pub struct RunnableApp {
    /// The application's bundle identifier.
    pub id: String,
    pub pid: i32,
    pub name: String,
    /// Icon bytes for the UI, when available.
    pub icon: Vec<u8>,
}

/// Whether a bundle identifier belongs to one of the recognized meeting
/// applications.
pub open spec fn is_meeting_bundle(id: Seq<char>) -> bool {
    ||| id == "us.zoom.xos"@
    ||| id == "com.tinyspeck.slackmacgap"@
    ||| id == "com.microsoft.teams"@
    ||| id == "com.microsoft.teams2"@
}

/// Whether this application is one of the recognized meeting
/// applications.
pub fn is_meeting_app(app: &RunnableApp) -> (r: bool)
    ensures
        r == is_meeting_bundle(app.id@),
{
    let zoom = String::from_str("us.zoom.xos");
    let slack = String::from_str("com.tinyspeck.slackmacgap");
    let teams = String::from_str("com.microsoft.teams");
    let teams2 = String::from_str("com.microsoft.teams2");
    app.id == zoom || app.id == slack || app.id == teams || app.id == teams2
}

/// Keep only the recognized meeting applications, in enumeration order.
pub fn filter_meeting_apps(apps: Vec<RunnableApp>) -> (r: Vec<RunnableApp>)
    ensures
        r@ == apps@.filter(|a: RunnableApp| is_meeting_bundle(a.id@)),
{
    let ghost orig = apps@;
    let ghost pred = |a: RunnableApp| is_meeting_bundle(a.id@);
    let mut rest = apps;
    let mut r: Vec<RunnableApp> = Vec::new();
    while rest.len() > 0
        invariant
            pred == (|a: RunnableApp| is_meeting_bundle(a.id@)),
            rest@.len() <= orig.len(),
            rest@ == orig.skip(orig.len() - rest@.len()),
            r@ == orig.take(orig.len() - rest@.len()).filter(pred),
        decreases rest@.len(),
    {
        let ghost k = orig.len() - rest@.len();
        let a = rest.remove(0);
        assert(a == orig[k]);
        assert(rest@ =~= orig.skip(k + 1));
        let keep = is_meeting_app(&a);
        proof {
            assert(orig.take(k + 1).filter(pred) == if pred(orig[k]) {
                orig.take(k).filter(pred).push(orig[k])
            } else {
                orig.take(k).filter(pred)
            }) by {
                reveal_with_fuel(Seq::filter, 2);
                assert(orig.take(k + 1).drop_last() =~= orig.take(k));
                assert(orig.take(k + 1).last() == orig[k]);
            }
        }
        assert(keep == pred(orig[k]));
        if keep {
            r.push(a);
        }
        assert(r@ == orig.take(k + 1).filter(pred));
    }
    proof {
        assert(orig.take(orig.len() as int) =~= orig);
    }
    r
}

} // verus!
