//! A lexical scan of contract source for three well-known weaknesses.
//!
//! The scan looks for fixed pieces of text. It does not understand the code:
//! a renamed identifier escapes it, and a comment can trip it.

use crate::json::{
    fields_view, items_view, only_if, push_field, push_item, strings_view, text_array, text_of,
    JsonModel, JsonValue,
};
use crate::mcp::{success_with, text_param, MCPTool, MCPToolResult, ToolParameters, ToolResultModel};
use crate::text::{chars_of, contains, has_text, same_text};
use vstd::prelude::*;
use vstd::string::*;

verus! {

/// The only language that the scan knows.
pub open spec fn audited_language() -> Seq<char> {
    "solidity"@
}

/// An issue, as it stands in the report.
pub open spec fn issue_doc(kind: Seq<char>, severity: Seq<char>, message: Seq<char>) -> JsonModel {
    JsonModel::Object(
        seq![
            ("type"@, JsonModel::Str(kind)),
            ("severity"@, JsonModel::Str(severity)),
            ("message"@, JsonModel::Str(message)),
        ],
    )
}

/// A low-level call that hands over value: the callee may call back in.
pub open spec fn reentrancy_issue() -> JsonModel {
    issue_doc("reentrancy"@, "high"@, "Potential reentrancy vulnerability detected"@)
}

/// The origin of the transaction is taken for the caller.
pub open spec fn access_control_issue() -> JsonModel {
    issue_doc("access_control"@, "medium"@, "tx.origin used for authentication"@)
}

/// The block's timestamp is read.
pub open spec fn timestamp_issue() -> JsonModel {
    issue_doc(
        "timestamp_dependence"@,
        "low"@,
        "Block timestamp used, can be manipulated by miners"@,
    )
}

/// The code holds a low-level call that hands over value.
pub open spec fn transfers_value(code: Seq<char>) -> bool {
    contains(code, "call.value"@) || contains(code, ".call{value:"@)
}

/// The code reads the origin of the transaction.
pub open spec fn reads_origin(code: Seq<char>) -> bool {
    contains(code, "tx.origin"@)
}

/// The code reads the block's timestamp.
pub open spec fn reads_timestamp(code: Seq<char>) -> bool {
    contains(code, "block.timestamp"@)
}

/// The issues of `code`, in the order of the three checks. Code in another
/// language than the audited one has none.
pub open spec fn audit_issues(code: Seq<char>, language: Seq<char>) -> Seq<JsonModel> {
    if language == audited_language() {
        only_if(transfers_value(code), reentrancy_issue()) + only_if(
            reads_origin(code),
            access_control_issue(),
        ) + only_if(reads_timestamp(code), timestamp_issue())
    } else {
        Seq::empty()
    }
}

/// The score of code with `issues` issues: 100 less 20 for each, but not
/// below 0.
pub open spec fn audit_score(issues: nat) -> int {
    if 100 - 20 * issues < 0 {
        0
    } else {
        100 - 20 * issues
    }
}

/// The type of an issue, where it names one.
pub open spec fn issue_kind(issue: JsonModel) -> Option<Seq<char>> {
    match issue.member("type"@) {
        Some(JsonModel::Str(kind)) => Some(kind),
        _ => None,
    }
}

/// One of `issues` is of the type `kind`.
pub open spec fn has_kind(issues: Seq<JsonModel>, kind: Seq<char>) -> bool {
    exists|j: int| 0 <= j < issues.len() && issue_kind(#[trigger] issues[j]) == Some(kind)
}

/// The advice against issues of the type `kind`: one sentence for each known
/// type, nothing for another.
pub open spec fn advice_for(kind: Seq<char>) -> Seq<Seq<char>> {
    if kind == "reentrancy"@ {
        seq!["Use checks-effects-interactions pattern or ReentrancyGuard"@]
    } else if kind == "access_control"@ {
        seq!["Use msg.sender for authentication instead of tx.origin"@]
    } else if kind == "timestamp_dependence"@ {
        seq!["Avoid using block.timestamp for critical logic"@]
    } else {
        Seq::empty()
    }
}

/// What the issue `issue` adds to the advice, coming after `earlier`: the
/// advice against its type, unless an earlier issue is of that type.
pub open spec fn added_advice(earlier: Seq<JsonModel>, issue: JsonModel) -> Seq<Seq<char>> {
    match issue_kind(issue) {
        Some(kind) => if has_kind(earlier, kind) {
            Seq::empty()
        } else {
            advice_for(kind)
        },
        None => Seq::empty(),
    }
}

/// The advice for a list of issues: one sentence for each type found among
/// them, in the order in which the types first occur.
pub open spec fn recommendations(issues: Seq<JsonModel>) -> Seq<Seq<char>>
    decreases issues.len(),
{
    if issues.len() == 0 {
        Seq::empty()
    } else {
        recommendations(issues.drop_last()) + added_advice(issues.drop_last(), issues.last())
    }
}

/// 1 if one of `issues` is of the type `kind`, else 0.
pub open spec fn kind_count(issues: Seq<JsonModel>, kind: Seq<char>) -> nat {
    if has_kind(issues, kind) {
        1
    } else {
        0
    }
}

/// A type is found among issues if it is found among all but the last, or is
/// the type of the last.
pub proof fn lemma_has_kind_step(issues: Seq<JsonModel>, kind: Seq<char>)
    requires
        issues.len() > 0,
    ensures
        has_kind(issues, kind) <==> (has_kind(issues.drop_last(), kind) || issue_kind(issues.last())
            == Some(kind)),
{
    let earlier = issues.drop_last();
    if has_kind(issues, kind) {
        let j = choose|j: int|
            0 <= j < issues.len() && issue_kind(#[trigger] issues[j]) == Some(kind);
        if j < earlier.len() {
            assert(earlier[j] == issues[j]);
        }
    }
    if has_kind(earlier, kind) {
        let j = choose|j: int|
            0 <= j < earlier.len() && issue_kind(#[trigger] earlier[j]) == Some(kind);
        assert(issues[j] == earlier[j]);
    }
    if issue_kind(issues.last()) == Some(kind) {
        assert(issues[issues.len() - 1] == issues.last());
    }
}

/// There is one recommendation for each of the three known types that is
/// found among the issues, however often it is found: never more than three.
pub proof fn lemma_one_advice_per_kind(issues: Seq<JsonModel>)
    ensures
        recommendations(issues).len() == kind_count(issues, "reentrancy"@) + kind_count(
            issues,
            "access_control"@,
        ) + kind_count(issues, "timestamp_dependence"@),
        recommendations(issues).len() <= 3,
    decreases issues.len(),
{
    reveal_strlit("reentrancy");
    reveal_strlit("access_control");
    reveal_strlit("timestamp_dependence");
    assert("reentrancy"@.len() == 10);
    assert("access_control"@.len() == 14);
    assert("timestamp_dependence"@.len() == 20);
    if issues.len() > 0 {
        lemma_one_advice_per_kind(issues.drop_last());
        lemma_has_kind_step(issues, "reentrancy"@);
        lemma_has_kind_step(issues, "access_control"@);
        lemma_has_kind_step(issues, "timestamp_dependence"@);
    } else {
        assert(!has_kind(issues, "reentrancy"@));
        assert(!has_kind(issues, "access_control"@));
        assert(!has_kind(issues, "timestamp_dependence"@));
    }
}

/// The report on `code`: its issues, its score and the advice.
pub open spec fn audit_report(code: Seq<char>, language: Seq<char>) -> JsonModel {
    let issues = audit_issues(code, language);
    JsonModel::Object(
        seq![
            ("issues"@, JsonModel::Array(issues)),
            ("score"@, JsonModel::Number(audit_score(issues.len()))),
            ("recommendations"@, text_array(recommendations(issues))),
        ],
    )
}

/// Automated security checks on contract source.
pub struct SecurityAuditTool;

/// Builds the document of an issue.
fn issue(kind: &str, severity: &str, message: &str) -> (r: JsonValue)
    ensures
        r@ == issue_doc(kind@, severity@, message@),
{
    let mut fields: Vec<(String, JsonValue)> = Vec::new();
    assert(fields_view(fields@) =~= Seq::empty());
    push_field(&mut fields, "type", JsonValue::text(kind));
    push_field(&mut fields, "severity", JsonValue::text(severity));
    push_field(&mut fields, "message", JsonValue::text(message));
    let r = JsonValue::object(fields);
    assert(r@->Object_0 =~= issue_doc(kind@, severity@, message@)->Object_0);
    r
}

impl SecurityAuditTool {
    pub fn new() -> (r: Self)
        ensures
            r == SecurityAuditTool,
    {
        SecurityAuditTool
    }

    /// The issues of `code`, in the order of the three checks.
    pub fn find_issues(code: &str, language: &str) -> (issues: Vec<JsonValue>)
        ensures
            items_view(issues@) == audit_issues(code@, language@),
            issues@.len() <= 3,
    {
        let mut issues: Vec<JsonValue> = Vec::new();
        assert(items_view(issues@) =~= Seq::empty());
        if same_text(language, "solidity") {
            let chars = chars_of(code);
            if has_text(&chars, "call.value") || has_text(&chars, ".call{value:") {
                push_item(
                    &mut issues,
                    issue("reentrancy", "high", "Potential reentrancy vulnerability detected"),
                );
            }
            if has_text(&chars, "tx.origin") {
                push_item(
                    &mut issues,
                    issue("access_control", "medium", "tx.origin used for authentication"),
                );
            }
            if has_text(&chars, "block.timestamp") {
                push_item(
                    &mut issues,
                    issue(
                        "timestamp_dependence",
                        "low",
                        "Block timestamp used, can be manipulated by miners",
                    ),
                );
            }
            assert(items_view(issues@) =~= audit_issues(code@, language@));
        }
        issues
    }

    /// The advice for a list of issues: one sentence for each type found
    /// among them, in the order in which the types first occur.
    pub fn get_recommendations(issues: &Vec<JsonValue>) -> (advice: Vec<String>)
        ensures
            strings_view(advice@) == recommendations(items_view(issues@)),
            advice@.len() <= 3,
    {
        proof {
            lemma_one_advice_per_kind(items_view(issues@));
        }
        let mut advice: Vec<String> = Vec::new();
        let mut reentrancy_seen = false;
        let mut access_control_seen = false;
        let mut timestamp_seen = false;
        let mut i: usize = 0;
        assert(items_view(issues@).take(0) =~= Seq::empty());
        assert(strings_view(advice@) =~= Seq::empty());
        while i < issues.len()
            invariant
                i <= issues.len(),
                strings_view(advice@) == recommendations(items_view(issues@).take(i as int)),
                reentrancy_seen == has_kind(items_view(issues@).take(i as int), "reentrancy"@),
                access_control_seen == has_kind(
                    items_view(issues@).take(i as int),
                    "access_control"@,
                ),
                timestamp_seen == has_kind(
                    items_view(issues@).take(i as int),
                    "timestamp_dependence"@,
                ),
            decreases issues.len() - i,
        {
            let ghost before = strings_view(advice@);
            let ghost earlier = items_view(issues@).take(i as int);
            let ghost seen = items_view(issues@).take(i + 1);
            proof {
                assert(seen.drop_last() =~= earlier);
                assert(seen.last() == issues@[i as int]@);
                lemma_has_kind_step(seen, "reentrancy"@);
                lemma_has_kind_step(seen, "access_control"@);
                lemma_has_kind_step(seen, "timestamp_dependence"@);
                reveal_strlit("reentrancy");
                reveal_strlit("access_control");
                reveal_strlit("timestamp_dependence");
                assert("reentrancy"@.len() == 10);
                assert("access_control"@.len() == 14);
                assert("timestamp_dependence"@.len() == 20);
            }
            let kind = text_of(issues[i].member("type"));
            match kind {
                Some(kind) => {
                    if same_text(kind, "reentrancy") {
                        if !reentrancy_seen {
                            let sentence =
                                "Use checks-effects-interactions pattern or ReentrancyGuard";
                            advice.push(sentence.to_owned());
                            reentrancy_seen = true;
                        }
                    } else if same_text(kind, "access_control") {
                        if !access_control_seen {
                            advice.push(
                                "Use msg.sender for authentication instead of tx.origin".to_owned(),
                            );
                            access_control_seen = true;
                        }
                    } else if same_text(kind, "timestamp_dependence") {
                        if !timestamp_seen {
                            let sentence = "Avoid using block.timestamp for critical logic";
                            advice.push(sentence.to_owned());
                            timestamp_seen = true;
                        }
                    }
                },
                None => {},
            }
            assert(strings_view(advice@) =~= before + added_advice(earlier, seen.last()));
            i += 1;
        }
        assert(items_view(issues@).take(i as int) =~= items_view(issues@));
        advice
    }
}

impl MCPTool for SecurityAuditTool {
    open spec fn name_spec(&self) -> Seq<char> {
        "security_audit"@
    }

    open spec fn description_spec(&self) -> Seq<char> {
        "Automated security checks and vulnerability detection"@
    }

    /// The parameters are `code` (default: empty) and `language` (default:
    /// the audited language).
    open spec fn execute_spec(&self, params: Map<Seq<char>, JsonModel>) -> ToolResultModel {
        success_with(
            audit_report(
                text_param(params, "code"@, ""@),
                text_param(params, "language"@, audited_language()),
            ),
        )
    }

    fn name(&self) -> (r: &str) {
        "security_audit"
    }

    fn description(&self) -> (r: &str) {
        "Automated security checks and vulnerability detection"
    }

    fn execute(&self, params: &ToolParameters) -> (r: MCPToolResult) {
        let code = params.text_or("code", "");
        let language = params.text_or("language", "solidity");
        let issues = SecurityAuditTool::find_issues(code, language);
        let count: i64 = issues.len() as i64;
        let score: i64 = if 100 - 20 * count < 0 {
            0
        } else {
            100 - 20 * count
        };
        let advice = SecurityAuditTool::get_recommendations(&issues);
        let mut fields: Vec<(String, JsonValue)> = Vec::new();
        assert(fields_view(fields@) =~= Seq::empty());
        push_field(&mut fields, "issues", JsonValue::array(issues));
        push_field(&mut fields, "score", JsonValue::Int(score));
        push_field(&mut fields, "recommendations", JsonValue::text_array(&advice));
        let data = JsonValue::object(fields);
        assert(data@->Object_0 =~= audit_report(code@, language@)->Object_0);
        MCPToolResult::success(data)
    }
}

/// Code in another language than the audited one has no issue and the full
/// score, whatever it holds.
pub proof fn lemma_other_language_is_clean(code: Seq<char>, language: Seq<char>)
    requires
        language != audited_language(),
    ensures
        audit_issues(code, language) == Seq::<JsonModel>::empty(),
        audit_score(audit_issues(code, language).len()) == 100,
{
}

/// Code that holds none of the three pieces of text has no issue and the full
/// score.
pub proof fn lemma_clean_code_scores_full(code: Seq<char>, language: Seq<char>)
    requires
        !transfers_value(code),
        !reads_origin(code),
        !reads_timestamp(code),
    ensures
        audit_issues(code, language) == Seq::<JsonModel>::empty(),
        audit_score(audit_issues(code, language).len()) == 100,
{
}

/// Code in the audited language that holds all three pieces of text has
/// exactly three issues, one of each kind, and the score 40.
pub proof fn lemma_all_three_issues(code: Seq<char>)
    requires
        transfers_value(code),
        reads_origin(code),
        reads_timestamp(code),
    ensures
        audit_issues(code, audited_language()) == seq![
            reentrancy_issue(),
            access_control_issue(),
            timestamp_issue(),
        ],
        audit_score(audit_issues(code, audited_language()).len()) == 40,
{
}

} // verus!
