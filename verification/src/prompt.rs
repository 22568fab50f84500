//! The prompt that the worker's agent is started on.

use crate::ipc::WorkRequest;
use crate::text::blank;
use crate::text::is_blank;
use vstd::prelude::*;
use vstd::string::*;

verus! {

/// What parts the sections of a prompt.
pub open spec fn section_break() -> Seq<char> {
    "\n\n---\n\n"@
}

/// The section of further material: none where there is no material or only
/// whitespace.
pub open spec fn context_section(context: Option<Seq<char>>) -> Seq<char> {
    match context {
        Some(text) => if blank(text) {
            Seq::empty()
        } else {
            section_break() + "Context:\n"@ + text
        },
        None => Seq::empty(),
    }
}

/// One line for each command: a dash, a space, the command, a line feed.
pub open spec fn test_lines(tests: Seq<Seq<char>>) -> Seq<char>
    decreases tests.len(),
{
    if tests.len() == 0 {
        Seq::empty()
    } else {
        test_lines(tests.drop_last()) + "- "@ + tests.last() + "\n"@
    }
}

/// The section of preferred tests: none where no command is given.
pub open spec fn tests_section(tests: Seq<Seq<char>>) -> Seq<char> {
    if tests.len() == 0 {
        Seq::empty()
    } else {
        section_break() + "Preferred tests:\n"@ + test_lines(tests)
    }
}

/// The prompt: the task, then the context, then the tests.
pub open spec fn prompt_text(
    task: Seq<char>,
    context: Option<Seq<char>>,
    tests: Seq<Seq<char>>,
) -> Seq<char> {
    task + context_section(context) + tests_section(tests)
}

/// Without context, or with context that is only whitespace, and without
/// tests the prompt is the task.
pub proof fn lemma_prompt_of_bare_task(task: Seq<char>, context: Option<Seq<char>>)
    requires
        context matches Some(text) ==> blank(text),
    ensures
        prompt_text(task, context, Seq::empty()) == task,
{
    assert(task + Seq::<char>::empty() + Seq::<char>::empty() =~= task);
}

/// Context that is missing, empty or only whitespace adds no section.
pub proof fn lemma_prompt_without_context(
    task: Seq<char>,
    context: Option<Seq<char>>,
    tests: Seq<Seq<char>>,
)
    requires
        context matches Some(text) ==> blank(text),
    ensures
        prompt_text(task, context, tests) == task + tests_section(tests),
        prompt_text(task, context, tests) == prompt_text(task, None, tests),
{
    assert(task + Seq::<char>::empty() + tests_section(tests) =~= task + tests_section(tests));
}

/// An empty list of tests adds no section.
pub proof fn lemma_prompt_without_tests(task: Seq<char>, context: Option<Seq<char>>)
    ensures
        prompt_text(task, context, Seq::empty()) == task + context_section(context),
{
    assert(task + context_section(context) + Seq::<char>::empty() =~= task + context_section(
        context,
    ));
}

/// Builds the prompt of a work request. It is a function of the task, the
/// context and the tests alone.
pub fn build_l2_prompt(request: &WorkRequest) -> (prompt: String)
    ensures
        prompt@ == prompt_text(request@.task, request@.context, request@.tests),
{
    let mut prompt = String::new();
    prompt.append(request.task.as_str());
    let ghost task = request.task@;
    assert(prompt@ =~= task);
    match &request.context {
        Some(context) => {
            if !is_blank(context.as_str()) {
                prompt.append("\n\n---\n\n");
                prompt.append("Context:\n");
                prompt.append(context.as_str());
            }
        },
        None => {},
    }
    assert(prompt@ =~= task + context_section(request@.context));
    let ghost head = prompt@;
    if request.tests.len() > 0 {
        prompt.append("\n\n---\n\n");
        prompt.append("Preferred tests:\n");
        let ghost start = prompt@;
        let mut i: usize = 0;
        while i < request.tests.len()
            invariant
                i <= request.tests.len(),
                prompt@ == start + test_lines(request.tests.deep_view().take(i as int)),
            decreases request.tests.len() - i,
        {
            proof {
                let taken = request.tests.deep_view().take(i + 1);
                assert(taken.drop_last() =~= request.tests.deep_view().take(i as int));
                assert(taken.last() == request.tests@[i as int]@);
            }
            prompt.append("- ");
            prompt.append(request.tests[i].as_str());
            prompt.append("\n");
            assert(prompt@ =~= start + test_lines(request.tests.deep_view().take(i + 1)));
            i = i + 1;
        }
        proof {
            assert(request.tests.deep_view().take(request.tests.len() as int)
                =~= request.tests.deep_view());
            assert(prompt@ =~= head + tests_section(request@.tests));
        }
    } else {
        assert(prompt@ =~= head + tests_section(request@.tests));
    }
    prompt
}

} // verus!
