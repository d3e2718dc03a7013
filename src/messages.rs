use vstd::prelude::*;
use vstd::string::StringExecFns;

verus! {

/// One role-tagged turn of a conversation with the oracle.
#[derive(Debug, Clone, PartialEq)]
pub struct Message {
    pub role: String,
    pub content: String,
}

/// The system prompt built around a prompt template `func` and its input:
/// the template, then an instruction to print only the function's result.
pub open spec fn extended_prompt(func: Seq<char>, input: Seq<char>) -> Seq<char> {
    "FUNCTION "@ + func
        + "\n    INSTRUCTION: You are a function printer. You ONLY print the results of functions.\n    Nothing else. No commentary. Here is the input to the function "@
        + input + ".\n    Print out what the function will return."@
}

/// Wraps the prompt that `ai_func` builds for `func_input` into a single
/// system message that asks the oracle to print only the function's result.
pub fn extend_ai_function<F: Fn(&str) -> &'static str>(ai_func: F, func_input: &str) -> (r:
    Message)
    requires
        ai_func.requires((func_input,)),
    ensures
        r.role@ == "system"@,
        exists|p: &'static str|
            ai_func.ensures((func_input,), p) && r.content@ == extended_prompt(p@, func_input@),
{
    let ai_function_str = ai_func(func_input);
    let msg = String::from_str("FUNCTION ");
    let msg = msg.concat(ai_function_str);
    let msg = msg.concat(
        "\n    INSTRUCTION: You are a function printer. You ONLY print the results of functions.\n    Nothing else. No commentary. Here is the input to the function ",
    );
    let msg = msg.concat(func_input);
    let msg = msg.concat(".\n    Print out what the function will return.");
    assert(ai_func.ensures((func_input,), ai_function_str) && msg@ == extended_prompt(
        ai_function_str@,
        func_input@,
    ));
    Message { role: String::from_str("system"), content: msg }
}

/// Context for the first code-generation request: the code template and the
/// project description.
pub open spec fn initial_code_context_text(template: Seq<char>, description: Seq<char>) -> Seq<
    char,
> {
    "CODE TEMPLATE: "@ + template + " \n PROJECT_DESCRIPTION: "@ + description + " \n"@
}

/// Builds the context of the first code-generation request.
pub fn initial_code_context(template: &str, description: &str) -> (r: String)
    ensures
        r@ == initial_code_context_text(template@, description@),
{
    let s = String::from_str("CODE TEMPLATE: ");
    let s = s.concat(template);
    let s = s.concat(" \n PROJECT_DESCRIPTION: ");
    let s = s.concat(description);
    s.concat(" \n")
}

/// Context for the endpoint-extraction request: the entry-point source text.
pub open spec fn endpoint_context_text(code: Seq<char>) -> Seq<char> {
    "CODE_INPUT: "@ + code
}

/// Builds the context of the endpoint-extraction request.
pub fn endpoint_context(code: &str) -> (r: String)
    ensures
        r@ == endpoint_context_text(code@),
{
    let s = String::from_str("CODE_INPUT: ");
    s.concat(code)
}

} // verus!
