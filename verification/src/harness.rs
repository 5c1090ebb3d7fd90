//! The decisions of a harness that runs tests of the analysis and reports on them.

use vstd::prelude::*;
use vstd::string::StringExecFns;

verus! {

/// The lines that say what an error was caused by.
pub open spec fn causes_report(causes: Seq<Seq<char>>) -> Seq<char>
    decreases causes.len(),
{
    if causes.len() == 0 {
        Seq::empty()
    } else {
        causes_report(causes.drop_last()) + "caused by: "@ + causes.last() + "\n"@
    }
}

/// The lines that describe an error: the error itself, and what it was caused by, the closest cause
/// first.
pub open spec fn error_report(error: Seq<char>, causes: Seq<Seq<char>>) -> Seq<char> {
    "error: "@ + error + "\n"@ + causes_report(causes)
}

/// The texts of a list of messages.
pub open spec fn texts(messages: Seq<String>) -> Seq<Seq<char>> {
    messages.map_values(|message: String| message@)
}

/// Describes an error and everything that it was caused by.
pub fn write_error(to: &mut String, error: &str, causes: &Vec<String>)
    ensures
        final(to)@ == old(to)@ + error_report(error@, texts(causes@)),
{
    let ghost before = to@;
    let ghost heading = "error: "@ + error@ + "\n"@;
    to.append("error: ");
    to.append(error);
    to.append("\n");
    proof {
        assert(to@ =~= before + heading + causes_report(texts(causes@.take(0))));
    }
    for i in 0..causes.len()
        invariant
            to@ == before + heading + causes_report(texts(causes@.take(i as int))),
    {
        let ghost so_far = texts(causes@.take(i as int));
        to.append("caused by: ");
        to.append(causes[i].as_str());
        to.append("\n");
        proof {
            assert(texts(causes@.take(i + 1)).drop_last() =~= so_far);
            assert(to@ =~= before + heading + (causes_report(so_far) + "caused by: "@
                + causes@[i as int]@ + "\n"@));
        }
    }
    proof {
        assert(causes@.take(causes@.len() as int) =~= causes@);
        assert(to@ =~= before + error_report(error@, texts(causes@)));
    }
}

/// Whether a file with this extension holds tests.
pub fn is_test_file(extension: Option<&String>) -> (is_test: bool)
    ensures
        is_test <==> (extension matches Some(extension) && extension@ == "wast"@),
{
    match extension {
        Some(extension) => *extension == "wast".to_owned(),
        None => false,
    }
}

/// Whether some tests failed, given for each test whether it failed.
pub fn tests_failed(failed: &Vec<bool>) -> (some_failed: bool)
    ensures
        some_failed <==> failed@.contains(true),
{
    for i in 0..failed.len()
        invariant
            forall|j: int| 0 <= j < i ==> !failed@[j],
    {
        if failed[i] {
            return true;
        }
    }
    false
}

/// A report starts with the error, in a line of its own. Each cause comes in a line of its own, in
/// the given order, and none is left out.
pub proof fn law_error_report(
    error: Seq<char>,
    causes: Seq<Seq<char>>,
    cause: Seq<char>,
    others: Seq<Seq<char>>,
)
    ensures
        error_report(error, Seq::empty()) == "error: "@ + error + "\n"@,
        error_report(error, causes.push(cause)) == error_report(error, causes) + "caused by: "@
            + cause + "\n"@,
        causes_report(causes + others) == causes_report(causes) + causes_report(others),
    decreases others.len(),
{
    assert(causes.push(cause).drop_last() =~= causes);
    assert(error_report(error, causes.push(cause)) =~= error_report(error, causes) + "caused by: "@
        + cause + "\n"@);
    assert(error_report(error, Seq::empty()) =~= "error: "@ + error + "\n"@);
    if others.len() == 0 {
        assert(causes + others =~= causes);
        assert(causes_report(causes + others) =~= causes_report(causes) + causes_report(others));
    } else {
        law_error_report(error, causes, cause, others.drop_last());
        assert((causes + others).drop_last() =~= causes + others.drop_last());
        assert(causes_report(causes + others) =~= causes_report(causes) + causes_report(others));
    }
}

/// The texts of messages are the messages, one by one.
pub proof fn law_texts(messages: Seq<String>)
    ensures
        texts(messages).len() == messages.len(),
        forall|i: int| 0 <= i < messages.len() ==> texts(messages)[i] == messages[i]@,
{
}

} // verus!
