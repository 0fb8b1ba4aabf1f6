//! Lookup of audited contract templates and of the imports that the features
//! of a contract need.

use crate::json::{fields_view, push_field, strings_view, text_array, JsonModel, JsonValue};
use crate::mcp::{
    failure_with, model_of, success_with, text_list_param, text_param, MCPTool, MCPToolResult,
    ToolModel, ToolParameters, ToolResultModel,
};
use crate::text::{joined, lowercase, same_text, to_lowercase};
use vstd::prelude::*;
use vstd::string::*;

verus! {

/// The body of the template for fungible tokens. The names in braces are
/// placeholders; the tool hands them out as they are.
pub const ERC20_TEMPLATE: &'static str =
    "\npragma solidity ^0.8.0;\n\nimport \"{base}\";\n{imports}\n\ncontract {name} is ERC20{features} {\n    constructor() ERC20(\"{token_name}\", \"{symbol}\") {\n        {constructor_body}\n    }\n    \n    {functions}\n}\n";

/// The body of the template for non-fungible tokens.
pub const ERC721_TEMPLATE: &'static str = "// ERC721 template";

/// A contract template: where its base contract is imported from, the
/// features that it can be extended with, and its body.
#[derive(Debug, Clone)]
pub struct ContractTemplate {
    name: String,
    base: String,
    features: Vec<String>,
    template: String,
}

/// The mathematical model of a contract template.
pub struct TemplateModel {
    pub name: Seq<char>,
    pub base: Seq<char>,
    pub features: Seq<Seq<char>>,
    pub template: Seq<char>,
}

impl View for ContractTemplate {
    type V = TemplateModel;

    closed spec fn view(&self) -> TemplateModel {
        TemplateModel {
            name: self.name@,
            base: self.base@,
            features: strings_view(self.features@),
            template: self.template@,
        }
    }
}

/// The template for fungible tokens.
pub open spec fn erc20_template() -> TemplateModel {
    TemplateModel {
        name: "ERC20"@,
        base: "@openzeppelin/contracts/token/ERC20/ERC20.sol"@,
        features: seq!["Mintable"@, "Burnable"@, "Pausable"@, "Snapshot"@, "Permit"@],
        template: ERC20_TEMPLATE@,
    }
}

/// The template for non-fungible tokens.
pub open spec fn erc721_template() -> TemplateModel {
    TemplateModel {
        name: "ERC721"@,
        base: "@openzeppelin/contracts/token/ERC721/ERC721.sol"@,
        features: seq!["Enumerable"@, "URIStorage"@, "Burnable"@, "Pausable"@],
        template: ERC721_TEMPLATE@,
    }
}

/// The templates that the tool comes with.
pub open spec fn standard_templates() -> Seq<TemplateModel> {
    seq![erc20_template(), erc721_template()]
}

/// The last template named `name`, if there is one.
pub open spec fn find_template(templates: Seq<TemplateModel>, name: Seq<char>) -> Option<
    TemplateModel,
>
    decreases templates.len(),
{
    if templates.len() == 0 {
        None
    } else if templates.last().name == name {
        Some(templates.last())
    } else {
        find_template(templates.drop_last(), name)
    }
}

/// The requested features that the template declares, in the order of the
/// request. A feature that the template does not declare is dropped.
pub open spec fn accepted_features(requested: Seq<Seq<char>>, declared: Seq<Seq<char>>) -> Seq<
    Seq<char>,
>
    decreases requested.len(),
{
    if requested.len() == 0 {
        Seq::empty()
    } else if declared.contains(requested.last()) {
        accepted_features(requested.drop_last(), declared).push(requested.last())
    } else {
        accepted_features(requested.drop_last(), declared)
    }
}

/// The line that imports the base contract of a template.
pub open spec fn base_import(base: Seq<char>) -> Seq<char> {
    "import \""@ + base + "\";"@
}

/// The line that imports the extension of `contract_type` for `feature`.
pub open spec fn feature_import(contract_type: Seq<char>, feature: Seq<char>) -> Seq<char> {
    "import \"@openzeppelin/contracts/token/"@ + contract_type + "/extensions/"@ + contract_type
        + feature + ".sol\";"@
}

/// The imports of a contract: that of the base contract, followed by one for
/// each accepted feature.
pub open spec fn imports_for(
    template: TemplateModel,
    contract_type: Seq<char>,
    requested: Seq<Seq<char>>,
) -> Seq<Seq<char>> {
    let accepted = accepted_features(requested, template.features);
    seq![base_import(template.base)] + Seq::new(
        accepted.len(),
        |i: int| feature_import(contract_type, accepted[i]),
    )
}

/// Where the documentation of `contract_type` is found: the name is put in
/// lower case.
pub open spec fn documentation_url(contract_type: Seq<char>) -> Seq<char> {
    "https://docs.openzeppelin.com/contracts/4.x/api/token/"@ + lowercase(contract_type)
}

/// What the tool hands out for a template that it has found.
pub open spec fn template_report(
    template: TemplateModel,
    contract_type: Seq<char>,
    requested: Seq<Seq<char>>,
) -> JsonModel {
    JsonModel::Object(
        seq![
            ("contract_type"@, JsonModel::Str(contract_type)),
            ("imports"@, text_array(imports_for(template, contract_type, requested))),
            ("features"@, text_array(accepted_features(requested, template.features))),
            ("template"@, JsonModel::Str(template.template)),
            ("documentation"@, JsonModel::Str(documentation_url(contract_type))),
        ],
    )
}

/// The result for a request of `contract_type` with the features
/// `requested`: the report on the template, or a failure that names the
/// unknown type.
pub open spec fn template_result(
    templates: Seq<TemplateModel>,
    contract_type: Seq<char>,
    requested: Seq<Seq<char>>,
) -> ToolResultModel {
    match find_template(templates, contract_type) {
        Some(template) => success_with(template_report(template, contract_type, requested)),
        None => failure_with("Unknown contract type: "@ + contract_type),
    }
}

/// The tool that holds `templates`, as a caller sees it.
pub open spec fn openzeppelin_model(templates: Seq<TemplateModel>) -> ToolModel {
    ToolModel {
        name: "openzeppelin_contracts"@,
        description: "Access secure, audited smart contract templates from OpenZeppelin"@,
        behaviour: |params: Map<Seq<char>, JsonModel>|
            template_result(
                templates,
                text_param(params, "contract_type"@, "ERC20"@),
                text_list_param(params, "features"@),
            ),
    }
}

/// Access to secure, audited contract templates.
pub struct OpenZeppelinTool {
    contracts: Vec<ContractTemplate>,
}

/// Whether `wanted` is one of `declared`.
fn declares(declared: &Vec<String>, wanted: &str) -> (r: bool)
    ensures
        r == strings_view(declared@).contains(wanted@),
{
    let mut i: usize = 0;
    while i < declared.len()
        invariant
            i <= declared.len(),
            forall|j: int| 0 <= j < i ==> strings_view(declared@)[j] != wanted@,
        decreases declared.len() - i,
    {
        if same_text(declared[i].as_str(), wanted) {
            assert(strings_view(declared@)[i as int] == wanted@);
            return true;
        }
        i += 1;
    }
    false
}

/// The lines that import the extensions of `contract_type` for `accepted`.
fn feature_imports(contract_type: &str, accepted: &Vec<String>, imports: &mut Vec<String>)
    ensures
        strings_view(final(imports)@) == strings_view(old(imports)@) + Seq::new(
            accepted@.len(),
            |i: int| feature_import(contract_type@, strings_view(accepted@)[i]),
        ),
{
    let ghost start = strings_view(imports@);
    let ghost lines = Seq::new(
        accepted@.len(),
        |i: int| feature_import(contract_type@, strings_view(accepted@)[i]),
    );
    let mut i: usize = 0;
    assert(strings_view(imports@) =~= start + lines.take(0));
    while i < accepted.len()
        invariant
            i <= accepted.len(),
            lines == Seq::new(
                accepted@.len(),
                |i: int| feature_import(contract_type@, strings_view(accepted@)[i]),
            ),
            strings_view(imports@) == start + lines.take(i as int),
        decreases accepted.len() - i,
    {
        let mut line = joined("import \"@openzeppelin/contracts/token/", contract_type);
        line.append("/extensions/");
        line.append(contract_type);
        line.append(accepted[i].as_str());
        line.append(".sol\";");
        assert(line@ == lines[i as int]);
        let ghost before = strings_view(imports@);
        imports.push(line);
        assert(strings_view(imports@) =~= before.push(lines[i as int]));
        assert(lines.take(i + 1) =~= lines.take(i as int).push(lines[i as int]));
        assert(strings_view(imports@) =~= start + lines.take(i + 1));
        i += 1;
    }
    assert(lines.take(i as int) =~= lines);
}

impl ContractTemplate {
    /// The requested features that this template declares, in the order of
    /// the request.
    fn accept(&self, requested: &Vec<String>) -> (accepted: Vec<String>)
        ensures
            strings_view(accepted@) == accepted_features(
                strings_view(requested@),
                self@.features,
            ),
    {
        let mut accepted: Vec<String> = Vec::new();
        let mut i: usize = 0;
        assert(strings_view(requested@).take(0) =~= Seq::empty());
        assert(strings_view(accepted@) =~= Seq::empty());
        while i < requested.len()
            invariant
                i <= requested.len(),
                strings_view(accepted@) == accepted_features(
                    strings_view(requested@).take(i as int),
                    self@.features,
                ),
            decreases requested.len() - i,
        {
            let ghost before = strings_view(accepted@);
            let ghost seen = strings_view(requested@).take(i + 1);
            assert(seen.drop_last() =~= strings_view(requested@).take(i as int));
            assert(seen.last() == requested@[i as int]@);
            if declares(&self.features, requested[i].as_str()) {
                accepted.push(requested[i].clone());
                assert(strings_view(accepted@) =~= before.push(requested@[i as int]@));
            }
            i += 1;
        }
        assert(strings_view(requested@).take(i as int) =~= strings_view(requested@));
        accepted
    }

    /// What the tool hands out for this template.
    fn report(&self, contract_type: &str, requested: &Vec<String>) -> (r: JsonValue)
        ensures
            r@ == template_report(self@, contract_type@, strings_view(requested@)),
    {
        let accepted = self.accept(requested);
        let mut base_line = joined("import \"", self.base.as_str());
        base_line.append("\";");
        let mut imports: Vec<String> = Vec::new();
        imports.push(base_line);
        assert(strings_view(imports@) =~= seq![base_import(self@.base)]);
        feature_imports(contract_type, &accepted, &mut imports);
        assert(strings_view(imports@) =~= imports_for(
            self@,
            contract_type@,
            strings_view(requested@),
        ));
        let lower = to_lowercase(contract_type);
        let url = joined(
            "https://docs.openzeppelin.com/contracts/4.x/api/token/",
            lower.as_str(),
        );
        let mut fields: Vec<(String, JsonValue)> = Vec::new();
        assert(fields_view(fields@) =~= Seq::empty());
        push_field(&mut fields, "contract_type", JsonValue::text(contract_type));
        push_field(&mut fields, "imports", JsonValue::text_array(&imports));
        push_field(&mut fields, "features", JsonValue::text_array(&accepted));
        push_field(&mut fields, "template", JsonValue::text(self.template.as_str()));
        push_field(&mut fields, "documentation", JsonValue::Str(url));
        let r = JsonValue::object(fields);
        assert(r@->Object_0 =~= template_report(
            self@,
            contract_type@,
            strings_view(requested@),
        )->Object_0);
        r
    }
}

/// A list of texts.
fn texts(items: &[&str]) -> (r: Vec<String>)
    ensures
        r@.len() == items@.len(),
        forall|i: int| 0 <= i < items@.len() ==> (#[trigger] r@[i])@ == items@[i]@,
{
    let mut r: Vec<String> = Vec::new();
    let mut i: usize = 0;
    while i < items.len()
        invariant
            i <= items.len(),
            r@.len() == i,
            forall|j: int| 0 <= j < i ==> (#[trigger] r@[j])@ == items@[j]@,
        decreases items.len() - i,
    {
        r.push(items[i].to_owned());
        i += 1;
    }
    r
}

impl OpenZeppelinTool {
    /// The templates that this tool holds, in the order in which they were
    /// added.
    pub closed spec fn templates(&self) -> Seq<TemplateModel> {
        Seq::new(self.contracts@.len(), |i: int| self.contracts@[i]@)
    }

    /// The tool with the standard templates.
    pub fn new() -> (r: Self)
        ensures
            r.templates() == standard_templates(),
            model_of(&r) == openzeppelin_model(standard_templates()),
    {
        let erc20 = ContractTemplate {
            name: "ERC20".to_owned(),
            base: "@openzeppelin/contracts/token/ERC20/ERC20.sol".to_owned(),
            features: texts(&["Mintable", "Burnable", "Pausable", "Snapshot", "Permit"]),
            template: ERC20_TEMPLATE.to_owned(),
        };
        assert(erc20@.features =~= erc20_template().features);
        let erc721 = ContractTemplate {
            name: "ERC721".to_owned(),
            base: "@openzeppelin/contracts/token/ERC721/ERC721.sol".to_owned(),
            features: texts(&["Enumerable", "URIStorage", "Burnable", "Pausable"]),
            template: ERC721_TEMPLATE.to_owned(),
        };
        assert(erc721@.features =~= erc721_template().features);
        let mut contracts: Vec<ContractTemplate> = Vec::new();
        contracts.push(erc20);
        contracts.push(erc721);
        let r = OpenZeppelinTool { contracts };
        assert(r.templates() =~= standard_templates());
        assert(model_of(&r) =~= openzeppelin_model(standard_templates()));
        r
    }

    /// The last template named `name`, if there is one.
    fn find(&self, name: &str) -> (r: Option<&ContractTemplate>)
        ensures
            match r {
                Some(template) => find_template(self.templates(), name@) == Some(template@),
                None => find_template(self.templates(), name@) is None,
            },
    {
        let mut i: usize = self.contracts.len();
        assert(self.templates().take(i as int) =~= self.templates());
        while i > 0
            invariant
                i <= self.contracts.len(),
                find_template(self.templates(), name@) == find_template(
                    self.templates().take(i as int),
                    name@,
                ),
            decreases i,
        {
            let ghost prefix = self.templates().take(i as int);
            assert(prefix.last() == self.contracts@[i - 1]@);
            assert(prefix.drop_last() =~= self.templates().take(i - 1));
            if same_text(self.contracts[i - 1].name.as_str(), name) {
                return Some(&self.contracts[i - 1]);
            }
            i -= 1;
        }
        assert(self.templates().take(0).len() == 0);
        None
    }
}

impl MCPTool for OpenZeppelinTool {
    open spec fn name_spec(&self) -> Seq<char> {
        "openzeppelin_contracts"@
    }

    open spec fn description_spec(&self) -> Seq<char> {
        "Access secure, audited smart contract templates from OpenZeppelin"@
    }

    /// The parameters are `contract_type` (default: the template for fungible
    /// tokens) and `features` (default: none).
    open spec fn execute_spec(&self, params: Map<Seq<char>, JsonModel>) -> ToolResultModel {
        template_result(
            self.templates(),
            text_param(params, "contract_type"@, "ERC20"@),
            text_list_param(params, "features"@),
        )
    }

    fn name(&self) -> (r: &str) {
        "openzeppelin_contracts"
    }

    fn description(&self) -> (r: &str) {
        "Access secure, audited smart contract templates from OpenZeppelin"
    }

    fn execute(&self, params: &ToolParameters) -> (r: MCPToolResult) {
        let contract_type = params.text_or("contract_type", "ERC20");
        let requested = params.text_list("features");
        match self.find(contract_type) {
            Some(template) => MCPToolResult::success(template.report(contract_type, &requested)),
            None => MCPToolResult::failure(joined("Unknown contract type: ", contract_type)),
        }
    }
}

/// Every accepted feature was requested and is declared by the template, and
/// no more features are accepted than were requested.
pub proof fn lemma_accepted_features(requested: Seq<Seq<char>>, declared: Seq<Seq<char>>)
    ensures
        accepted_features(requested, declared).len() <= requested.len(),
        forall|i: int|
            0 <= i < accepted_features(requested, declared).len() ==> {
                &&& requested.contains(#[trigger] accepted_features(requested, declared)[i])
                &&& declared.contains(accepted_features(requested, declared)[i])
            },
    decreases requested.len(),
{
    if requested.len() > 0 {
        let rest = requested.drop_last();
        lemma_accepted_features(rest, declared);
        let accepted = accepted_features(requested, declared);
        assert forall|i: int| 0 <= i < accepted.len() implies requested.contains(
            #[trigger] accepted[i],
        ) && declared.contains(accepted[i]) by {
            if i < accepted_features(rest, declared).len() {
                let found = accepted_features(rest, declared)[i];
                assert(accepted[i] == found);
                let at = choose|at: int| 0 <= at < rest.len() && rest[at] == found;
                assert(requested[at] == found);
            } else {
                assert(accepted[i] == requested.last());
                assert(requested[requested.len() - 1] == requested.last());
            }
        }
    }
}

/// A request yields the import of the base contract and one import for each
/// accepted feature, no more.
pub proof fn lemma_one_import_per_accepted_feature(
    template: TemplateModel,
    contract_type: Seq<char>,
    requested: Seq<Seq<char>>,
)
    ensures
        imports_for(template, contract_type, requested).len() == 1 + accepted_features(
            requested,
            template.features,
        ).len(),
        imports_for(template, contract_type, requested)[0] == base_import(template.base),
{
}

} // verus!
