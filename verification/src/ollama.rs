//! The local model server: its endpoints and the category-specific
//! prompts that tasks are sent with.

use vstd::prelude::*;
use crate::text::{contains_text, text_equals};

verus! {

/// The endpoint that lists the models the server holds.
pub open spec fn tags_url_text(base_url: Seq<char>) -> Seq<char> {
    base_url + "/api/tags"@
}

/// The endpoint that generates a completion.
pub open spec fn generate_url_text(base_url: Seq<char>) -> Seq<char> {
    base_url + "/api/generate"@
}

/// The address of the server's model list.
pub fn tags_url(base_url: &str) -> (res: String)
    ensures
        res@ == tags_url_text(base_url@),
{
    let mut u = base_url.to_owned();
    u.append("/api/tags");
    u
}

/// The address of the server's completion endpoint.
pub fn generate_url(base_url: &str) -> (res: String)
    ensures
        res@ == generate_url_text(base_url@),
{
    let mut u = base_url.to_owned();
    u.append("/api/generate");
    u
}

/// The prompt that a task of the given category is sent with.
pub open spec fn task_prompt(
    category: Seq<char>,
    title: Seq<char>,
    description: Seq<char>,
    input: Seq<char>,
) -> Seq<char> {
    if category == "document-summary"@ {
        "You are a professional document summarizer. Create a clear, concise summary of the following document.\nFocus on key points, conclusions, and actionable items.\n\nTitle: "@
            + title + "\nInstructions: "@ + description + "\n\nDOCUMENT:\n"@ + input
            + "\n\nSUMMARY:"@
    } else if category == "email-draft"@ {
        "You are a professional email writer. Draft a polished, professional email based on the following brief.\nMatch the requested tone and include all specified points.\n\nBrief: "@
            + title + "\nDetails: "@ + description + "\n\nEMAIL:"@
    } else if category == "content-writing"@ {
        "You are a professional content writer. Write high-quality content based on the following brief.\nTarget audience and tone should match the request.\n\nBrief: "@
            + title + "\nDetails: "@ + description + "\n\nAdditional context:\n"@ + input
            + "\n\nCONTENT:"@
    } else {
        "Complete the following task professionally and thoroughly.\n\nTask: "@ + title
            + "\nDetails: "@ + description + "\nInput: "@ + input + "\n\nOUTPUT:"@
    }
}

/// Builds the task-specific prompt for a category: document summaries,
/// email drafts and content writing have prompts of their own, and any
/// other category gets the general one.
pub fn build_task_prompt(category: &str, title: &str, description: &str, input: &str) -> (res:
    String)
    ensures
        res@ == task_prompt(category@, title@, description@, input@),
{
    if text_equals(category, "document-summary") {
        let mut p = "You are a professional document summarizer. Create a clear, concise summary of the following document.\nFocus on key points, conclusions, and actionable items.\n\nTitle: ".to_owned();
        p.append(title);
        p.append("\nInstructions: ");
        p.append(description);
        p.append("\n\nDOCUMENT:\n");
        p.append(input);
        p.append("\n\nSUMMARY:");
        p
    } else if text_equals(category, "email-draft") {
        let mut p = "You are a professional email writer. Draft a polished, professional email based on the following brief.\nMatch the requested tone and include all specified points.\n\nBrief: ".to_owned();
        p.append(title);
        p.append("\nDetails: ");
        p.append(description);
        p.append("\n\nEMAIL:");
        p
    } else if text_equals(category, "content-writing") {
        let mut p = "You are a professional content writer. Write high-quality content based on the following brief.\nTarget audience and tone should match the request.\n\nBrief: ".to_owned();
        p.append(title);
        p.append("\nDetails: ");
        p.append(description);
        p.append("\n\nAdditional context:\n");
        p.append(input);
        p.append("\n\nCONTENT:");
        p
    } else {
        let mut p = "Complete the following task professionally and thoroughly.\n\nTask: ".to_owned();
        p.append(title);
        p.append("\nDetails: ");
        p.append(description);
        p.append("\nInput: ");
        p.append(input);
        p.append("\n\nOUTPUT:");
        p
    }
}


proof fn lemma_occurs_after(pre: Seq<char>, x: Seq<char>, post: Seq<char>)
    ensures
        contains_text(pre + x + post, x),
{
    let whole = pre + x + post;
    assert(whole.subrange(pre.len() as int, (pre.len() + x.len()) as int) =~= x);
}

/// Whatever the category, the prompt holds the task's title and its
/// description word for word.
pub proof fn lemma_prompt_holds_title_and_description(
    category: Seq<char>,
    title: Seq<char>,
    description: Seq<char>,
    input: Seq<char>,
)
    ensures
        contains_text(task_prompt(category, title, description, input), title),
        contains_text(task_prompt(category, title, description, input), description),
{
    let p = task_prompt(category, title, description, input);
    if category == "document-summary"@ {
        let a = "You are a professional document summarizer. Create a clear, concise summary of the following document.\nFocus on key points, conclusions, and actionable items.\n\nTitle: "@;
        let rest = "\nInstructions: "@ + description + "\n\nDOCUMENT:\n"@ + input + "\n\nSUMMARY:"@;
        assert(p =~= a + title + rest);
        lemma_occurs_after(a, title, rest);
        let b = a + title + "\nInstructions: "@;
        let rest2 = "\n\nDOCUMENT:\n"@ + input + "\n\nSUMMARY:"@;
        assert(p =~= b + description + rest2);
        lemma_occurs_after(b, description, rest2);
    } else if category == "email-draft"@ {
        let a = "You are a professional email writer. Draft a polished, professional email based on the following brief.\nMatch the requested tone and include all specified points.\n\nBrief: "@;
        let rest = "\nDetails: "@ + description + "\n\nEMAIL:"@;
        assert(p =~= a + title + rest);
        lemma_occurs_after(a, title, rest);
        let b = a + title + "\nDetails: "@;
        assert(p =~= b + description + "\n\nEMAIL:"@);
        lemma_occurs_after(b, description, "\n\nEMAIL:"@);
    } else if category == "content-writing"@ {
        let a = "You are a professional content writer. Write high-quality content based on the following brief.\nTarget audience and tone should match the request.\n\nBrief: "@;
        let rest = "\nDetails: "@ + description + "\n\nAdditional context:\n"@ + input + "\n\nCONTENT:"@;
        assert(p =~= a + title + rest);
        lemma_occurs_after(a, title, rest);
        let b = a + title + "\nDetails: "@;
        let rest2 = "\n\nAdditional context:\n"@ + input + "\n\nCONTENT:"@;
        assert(p =~= b + description + rest2);
        lemma_occurs_after(b, description, rest2);
    } else {
        let a = "Complete the following task professionally and thoroughly.\n\nTask: "@;
        let rest = "\nDetails: "@ + description + "\nInput: "@ + input + "\n\nOUTPUT:"@;
        assert(p =~= a + title + rest);
        lemma_occurs_after(a, title, rest);
        let b = a + title + "\nDetails: "@;
        let rest2 = "\nInput: "@ + input + "\n\nOUTPUT:"@;
        assert(p =~= b + description + rest2);
        lemma_occurs_after(b, description, rest2);
    }
}

/// The task's input reaches the model whole: every category but email
/// drafts carries the input word for word in its prompt, and the prompt of
/// an email draft is the same whatever the input.
pub proof fn lemma_prompt_holds_whole_input(
    category: Seq<char>,
    title: Seq<char>,
    description: Seq<char>,
    input: Seq<char>,
    other_input: Seq<char>,
)
    ensures
        category != "email-draft"@ ==> contains_text(
            task_prompt(category, title, description, input),
            input,
        ),
        category == "email-draft"@ ==> task_prompt(category, title, description, input)
            == task_prompt(category, title, description, other_input),
{
    reveal_strlit("document-summary");
    reveal_strlit("email-draft");
    reveal_strlit("content-writing");
    assert("document-summary"@.len() != "email-draft"@.len());
    assert("content-writing"@.len() != "email-draft"@.len());
    let p = task_prompt(category, title, description, input);
    if category == "document-summary"@ {
        let a = "You are a professional document summarizer. Create a clear, concise summary of the following document.\nFocus on key points, conclusions, and actionable items.\n\nTitle: "@
            + title + "\nInstructions: "@ + description + "\n\nDOCUMENT:\n"@;
        assert(p =~= a + input + "\n\nSUMMARY:"@);
        lemma_occurs_after(a, input, "\n\nSUMMARY:"@);
    } else if category == "email-draft"@ {
        assert(p =~= task_prompt(category, title, description, other_input));
    } else if category == "content-writing"@ {
        let a = "You are a professional content writer. Write high-quality content based on the following brief.\nTarget audience and tone should match the request.\n\nBrief: "@
            + title + "\nDetails: "@ + description + "\n\nAdditional context:\n"@;
        assert(p =~= a + input + "\n\nCONTENT:"@);
        lemma_occurs_after(a, input, "\n\nCONTENT:"@);
    } else {
        let a = "Complete the following task professionally and thoroughly.\n\nTask: "@ + title
            + "\nDetails: "@ + description + "\nInput: "@;
        assert(p =~= a + input + "\n\nOUTPUT:"@);
        lemma_occurs_after(a, input, "\n\nOUTPUT:"@);
    }
}

} // verus!
