//! A lexical scan of contract source for four habits that cost gas.
//!
//! The savings it names are illustrations, not measurements.

use crate::json::{fields_view, items_view, push_field, push_item, only_if, JsonModel, JsonValue};
use crate::mcp::{success_with, text_param, MCPTool, MCPToolResult, ToolParameters, ToolResultModel};
use crate::text::{chars_of, contains, decimal, decimal_string, has_text};
use vstd::prelude::*;
use vstd::string::*;

verus! {

/// A suggestion, as it stands in the report.
pub open spec fn suggestion_doc(
    kind: Seq<char>,
    suggestion: Seq<char>,
    impact: Seq<char>,
    gas_saved: Seq<char>,
) -> JsonModel {
    JsonModel::Object(
        seq![
            ("type"@, JsonModel::Str(kind)),
            ("suggestion"@, JsonModel::Str(suggestion)),
            ("impact"@, JsonModel::Str(impact)),
            ("gas_saved"@, JsonModel::Str(gas_saved)),
        ],
    )
}

/// Strings of a fixed length fit in one storage slot as `bytes32`.
pub open spec fn storage_suggestion() -> JsonModel {
    suggestion_doc(
        "storage"@,
        "Consider using bytes32 for fixed-length strings"@,
        "high"@,
        "~2000 per storage slot"@,
    )
}

/// The bound of a loop is read from storage once for each round.
pub open spec fn cached_length_suggestion() -> JsonModel {
    suggestion_doc(
        "loops"@,
        "Cache array length outside the loop"@,
        "medium"@,
        "~100 per iteration"@,
    )
}

/// Incrementing after the use keeps a copy of the old value.
pub open spec fn increment_suggestion() -> JsonModel {
    suggestion_doc("loops"@, "Use ++i instead of i++ in loops"@, "low"@, "~5 per iteration"@)
}

/// A function that is only called from outside need not copy its arguments.
pub open spec fn visibility_suggestion() -> JsonModel {
    suggestion_doc(
        "functions"@,
        "Use external instead of public for functions not called internally"@,
        "medium"@,
        "~200 per call"@,
    )
}

/// The code declares a string that is not in memory.
pub open spec fn stores_strings(code: Seq<char>) -> bool {
    contains(code, "string "@) && !contains(code, "string memory"@)
}

/// The code has a loop and reads a length.
pub open spec fn loops_over_length(code: Seq<char>) -> bool {
    contains(code, "for ("@) && contains(code, ".length"@)
}

/// The code increments after the use.
pub open spec fn increments_after(code: Seq<char>) -> bool {
    contains(code, "i++"@)
}

/// The code has public functions and no external one.
pub open spec fn only_public(code: Seq<char>) -> bool {
    contains(code, "public"@) && !contains(code, "external"@)
}

/// The suggestions for `code`, in the order of the four checks.
pub open spec fn gas_suggestions(code: Seq<char>) -> Seq<JsonModel> {
    only_if(stores_strings(code), storage_suggestion()) + only_if(
        loops_over_length(code),
        cached_length_suggestion(),
    ) + only_if(increments_after(code), increment_suggestion()) + only_if(
        only_public(code),
        visibility_suggestion(),
    )
}

/// The savings that the report names for `suggestions` suggestions: 1000 for
/// each, followed by the unit.
pub open spec fn estimated_savings(suggestions: nat) -> Seq<char> {
    decimal(1000 * suggestions) + " gas"@
}

/// The score of code with `suggestions` suggestions: 100 less 10 for each.
/// There is no lower bound to it.
pub open spec fn optimization_score(suggestions: nat) -> int {
    100 - 10 * suggestions
}

/// The report on `code`: the suggestions, the savings and the score.
pub open spec fn gas_report(code: Seq<char>) -> JsonModel {
    let suggestions = gas_suggestions(code);
    JsonModel::Object(
        seq![
            ("suggestions"@, JsonModel::Array(suggestions)),
            ("estimated_total_savings"@, JsonModel::Str(estimated_savings(suggestions.len()))),
            ("optimization_score"@, JsonModel::Number(optimization_score(suggestions.len()))),
        ],
    )
}

/// Analysis of the gas that contract source consumes.
pub struct GasOptimizationTool;

/// Builds the document of a suggestion.
fn suggestion(kind: &str, text: &str, impact: &str, gas_saved: &str) -> (r: JsonValue)
    ensures
        r@ == suggestion_doc(kind@, text@, impact@, gas_saved@),
{
    let mut fields: Vec<(String, JsonValue)> = Vec::new();
    assert(fields_view(fields@) =~= Seq::empty());
    push_field(&mut fields, "type", JsonValue::text(kind));
    push_field(&mut fields, "suggestion", JsonValue::text(text));
    push_field(&mut fields, "impact", JsonValue::text(impact));
    push_field(&mut fields, "gas_saved", JsonValue::text(gas_saved));
    let r = JsonValue::object(fields);
    assert(r@->Object_0 =~= suggestion_doc(kind@, text@, impact@, gas_saved@)->Object_0);
    r
}

impl GasOptimizationTool {
    pub fn new() -> (r: Self)
        ensures
            r == GasOptimizationTool,
    {
        GasOptimizationTool
    }

    /// The suggestions for `code`, in the order of the four checks.
    pub fn find_suggestions(code: &str) -> (found: Vec<JsonValue>)
        ensures
            items_view(found@) == gas_suggestions(code@),
            found@.len() <= 4,
    {
        let mut found: Vec<JsonValue> = Vec::new();
        assert(items_view(found@) =~= Seq::empty());
        let chars = chars_of(code);
        if has_text(&chars, "string ") && !has_text(&chars, "string memory") {
            push_item(
                &mut found,
                suggestion(
                    "storage",
                    "Consider using bytes32 for fixed-length strings",
                    "high",
                    "~2000 per storage slot",
                ),
            );
        }
        if has_text(&chars, "for (") && has_text(&chars, ".length") {
            push_item(
                &mut found,
                suggestion(
                    "loops",
                    "Cache array length outside the loop",
                    "medium",
                    "~100 per iteration",
                ),
            );
        }
        if has_text(&chars, "i++") {
            push_item(
                &mut found,
                suggestion("loops", "Use ++i instead of i++ in loops", "low", "~5 per iteration"),
            );
        }
        if has_text(&chars, "public") && !has_text(&chars, "external") {
            push_item(
                &mut found,
                suggestion(
                    "functions",
                    "Use external instead of public for functions not called internally",
                    "medium",
                    "~200 per call",
                ),
            );
        }
        assert(items_view(found@) =~= gas_suggestions(code@));
        found
    }
}

impl MCPTool for GasOptimizationTool {
    open spec fn name_spec(&self) -> Seq<char> {
        "gas_optimization"@
    }

    open spec fn description_spec(&self) -> Seq<char> {
        "Analyze and optimize gas consumption"@
    }

    /// The one parameter is `code` (default: empty).
    open spec fn execute_spec(&self, params: Map<Seq<char>, JsonModel>) -> ToolResultModel {
        success_with(gas_report(text_param(params, "code"@, ""@)))
    }

    fn name(&self) -> (r: &str) {
        "gas_optimization"
    }

    fn description(&self) -> (r: &str) {
        "Analyze and optimize gas consumption"
    }

    fn execute(&self, params: &ToolParameters) -> (r: MCPToolResult) {
        let code = params.text_or("code", "");
        let found = GasOptimizationTool::find_suggestions(code);
        let count: u64 = found.len() as u64;
        let mut savings = decimal_string(1000 * count);
        savings.append(" gas");
        let score: i64 = 100 - 10 * (count as i64);
        let mut fields: Vec<(String, JsonValue)> = Vec::new();
        assert(fields_view(fields@) =~= Seq::empty());
        push_field(&mut fields, "suggestions", JsonValue::array(found));
        push_field(&mut fields, "estimated_total_savings", JsonValue::Str(savings));
        push_field(&mut fields, "optimization_score", JsonValue::Int(score));
        let data = JsonValue::object(fields);
        assert(data@->Object_0 =~= gas_report(code@)->Object_0);
        MCPToolResult::success(data)
    }
}

/// Empty code gets no suggestion and the score 100.
pub proof fn lemma_empty_code_needs_nothing()
    ensures
        gas_suggestions(Seq::empty()) == Seq::<JsonModel>::empty(),
        optimization_score(gas_suggestions(Seq::empty()).len()) == 100,
{
    let code = Seq::<char>::empty();
    reveal_strlit("string ");
    reveal_strlit("for (");
    reveal_strlit("i++");
    reveal_strlit("public");
    assert(!contains(code, "string "@));
    assert(!contains(code, "for ("@));
    assert(!contains(code, "i++"@));
    assert(!contains(code, "public"@));
    assert(gas_suggestions(code) =~= Seq::<JsonModel>::empty());
}

} // verus!
