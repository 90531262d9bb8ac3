//! Checking a WGSL shader with naga, and the outline of its declarations.

use vstd::prelude::*;
use crate::naga_support::{
    function_names, global_variable_names, parse_wgsl, type_names, validate_module, FullValidator,
};
use crate::wgsl_error::WgslError;

verus! {

/// A WGSL checker: naga's validator with every check and capability on.
pub struct Naga {
    pub(crate) validator: FullValidator,
}

/// A shader's source and the path it was read from, as the report shows it.
pub struct WgslSource {
    pub path: String,
    pub code: String,
}

/// The names that a shader declares: its named types, global variables and
/// functions, each in the order in which naga's module holds them.
pub struct WgslTree {
    pub types: Vec<String>,
    pub global_variables: Vec<String>,
    pub functions: Vec<String>,
}

/// The names among a list of optional names, in order.
pub open spec fn named(names: Seq<Option<Seq<char>>>) -> Seq<Seq<char>> {
    names.filter_map(|name: Option<Seq<char>>| name)
}

/// What checking `shader` with `validator` (in the state it is in before the
/// check) ends in, by what naga makes of it: for a shader that does not
/// parse, the parser error of naga's report at its first label; for one that
/// parses and that the validator accepts, success; for one that it refuses,
/// a validation error that keeps the shader's source and carries what the
/// validator reported of the module.
pub open spec fn validation_outcome(
    shader: &str,
    validator: FullValidator,
    r: Result<(), WgslError>,
) -> bool {
    match crate::naga_support::wgsl_parse(shader@) {
        crate::naga_support::WgslParse::Failed { report, labels } => r matches Err(e)
            && crate::wgsl_error::is_parse_error_of(shader@, report, labels, e),
        crate::naga_support::WgslParse::Parsed { validation, .. } => match validation(validator) {
            None => r is Ok,
            Some(report) => r matches Err(WgslError::ValidationErr { src, error }) && src@ == shader@
                && crate::naga_support::report_of(error) == report,
        },
    }
}

/// What asking for the outline of `shader` ends in: the tree of the names
/// that the parsed module holds (whether or not it validates), or, where it
/// does not parse, the parser error of naga's report at its first label.
pub open spec fn tree_outcome(shader: &str, r: Result<WgslTree, WgslError>) -> bool {
    match crate::naga_support::wgsl_parse(shader@) {
        crate::naga_support::WgslParse::Parsed { types, global_variables, functions, .. } => r matches Ok(
            tree,
        ) && tree.lists((types, global_variables, functions)),
        crate::naga_support::WgslParse::Failed { report, labels } => r matches Err(e)
            && crate::wgsl_error::is_parse_error_of(shader@, report, labels, e),
    }
}

/// Checks `shader` with `validator`: parses it, then validates the module.
pub(crate) fn check_shader(validator: &mut FullValidator, shader: &str) -> (r: Result<(), WgslError>)
    ensures
        validation_outcome(shader, *old(validator), r),
{
    let module = match parse_wgsl(shader) {
        Ok(module) => module,
        Err(err) => return Err(WgslError::from_parse_err(err, shader)),
    };
    match validate_module(validator, &module) {
        Err(error) => Err(WgslError::ValidationErr { src: shader.to_owned(), error }),
        Ok(()) => Ok(()),
    }
}

/// The names among `names`, in order.
pub fn keep_named(names: &Vec<Option<String>>) -> (r: Vec<String>)
    ensures
        r.deep_view() == named(names.deep_view()),
{
    let ghost all = names.deep_view();
    let mut r: Vec<String> = Vec::new();
    let mut i: usize = 0;
    while i < names.len()
        invariant
            i <= names.len(),
            all == names.deep_view(),
            r.deep_view() == named(all.take(i as int)),
        decreases names.len() - i,
    {
        assert(all.take(i + 1).drop_last() =~= all.take(i as int));
        assert(all.take(i + 1).last() == all[i as int]);
        match &names[i] {
            Some(name) => {
                let ghost before = r.deep_view();
                r.push(name.clone());
                assert(r.deep_view() =~= before + seq![name@]);
            },
            None => {},
        }
        i = i + 1;
    }
    assert(all.take(names.len() as int) =~= all);
    r
}

impl WgslTree {
    /// Whether this tree lists exactly the names in `outline`.
    pub open spec fn lists(
        self,
        outline: (Seq<Option<Seq<char>>>, Seq<Option<Seq<char>>>, Seq<Option<Seq<char>>>),
    ) -> bool {
        &&& self.types.deep_view() == named(outline.0)
        &&& self.global_variables.deep_view() == named(outline.1)
        &&& self.functions.deep_view() == named(outline.2)
    }

    /// The tree of the named items among the given types, global variables
    /// and functions.
    pub fn from_names(
        types: &Vec<Option<String>>,
        global_variables: &Vec<Option<String>>,
        functions: &Vec<Option<String>>,
    ) -> (tree: Self)
        ensures
            tree.lists((types.deep_view(), global_variables.deep_view(), functions.deep_view())),
    {
        WgslTree {
            types: keep_named(types),
            global_variables: keep_named(global_variables),
            functions: keep_named(functions),
        }
    }
}

impl Default for WgslTree {
    fn default() -> (tree: Self)
        ensures
            tree.types@.len() == 0,
            tree.global_variables@.len() == 0,
            tree.functions@.len() == 0,
    {
        WgslTree { types: Vec::new(), global_variables: Vec::new(), functions: Vec::new() }
    }
}

impl Naga {
    /// The validator that this checker checks with, in its present state.
    pub closed spec fn checker(self) -> FullValidator {
        self.validator
    }

    /// Inside the crate, `checker` is the `validator` field.
    pub(crate) proof fn lemma_checker_is_validator(self)
        ensures
            self.checker() == self.validator,
    {
    }

    /// A checker with every validation flag and capability on, as naga
    /// builds it: it judges every shader as a freshly built full validator.
    pub fn new() -> (naga: Self)
        ensures
            crate::naga_support::is_fresh(naga.checker()),
    {
        Naga { validator: FullValidator::new() }
    }

    /// Checks a WGSL shader: it must parse, and naga's validator must accept
    /// the module. See `validation_outcome` for each result. Naga's validator
    /// keeps some state from one module to the next, so the outcome is stated
    /// for the checker as it was before the call.
    pub fn validate_wgsl(&mut self, shader: &str) -> (r: Result<(), WgslError>)
        ensures
            validation_outcome(shader, old(self).checker(), r),
    {
        check_shader(&mut self.validator, shader)
    }

    /// The names that a WGSL shader declares, or the parser error where it
    /// does not parse. Nothing is validated and the checker is left as it was.
    pub fn get_wgsl_tree(&mut self, shader: &str) -> (r: Result<WgslTree, WgslError>)
        ensures
            tree_outcome(shader, r),
            *final(self) == *old(self),
    {
        let module = match parse_wgsl(shader) {
            Ok(module) => module,
            Err(err) => return Err(WgslError::from_parse_err(err, shader)),
        };
        let types = type_names(&module);
        let global_variables = global_variable_names(&module);
        let functions = function_names(&module);
        Ok(WgslTree::from_names(&types, &global_variables, &functions))
    }
}

/// Checking a shader and asking for its outline agree: a shader that
/// validates, or that parses but fails validation, has an outline; a shader
/// without an outline gives the same parser error (report, line and column)
/// both ways.
pub proof fn lemma_valid_shader_has_tree(
    shader: &str,
    validator: FullValidator,
    checked: Result<(), WgslError>,
    tree: Result<WgslTree, WgslError>,
)
    requires
        validation_outcome(shader, validator, checked),
        tree_outcome(shader, tree),
    ensures
        checked is Ok ==> tree is Ok,
        (checked matches Err(WgslError::ParserErr { .. })) <==> tree is Err,
        (checked matches Err(WgslError::ValidationErr { .. })) ==> tree is Ok,
        checked matches Err(WgslError::ParserErr { error: e1, line: l1, pos: p1 }) ==> (
        tree matches Err(WgslError::ParserErr { error: e2, line: l2, pos: p2 }) && e1@ == e2@ && l1
            == l2 && p1 == p2),
{
}

/// Checking is a function of the shader and of the checker's state: two
/// checks of one shader by validators in one state end alike, with equal
/// parser errors, or validation errors that keep the same source and carry
/// the same report.
pub proof fn lemma_check_is_deterministic(
    shader: &str,
    validator: FullValidator,
    first: Result<(), WgslError>,
    second: Result<(), WgslError>,
)
    requires
        validation_outcome(shader, validator, first),
        validation_outcome(shader, validator, second),
    ensures
        first is Ok <==> second is Ok,
        first matches Err(WgslError::ParserErr { error: e1, line: l1, pos: p1 }) ==> (
        second matches Err(WgslError::ParserErr { error: e2, line: l2, pos: p2 }) && e1@ == e2@
            && l1 == l2 && p1 == p2),
        first matches Err(WgslError::ValidationErr { src: s1, error: v1 }) ==> (
        second matches Err(WgslError::ValidationErr { src: s2, error: v2 }) && s1@ == s2@
            && crate::naga_support::report_of(v1) == crate::naga_support::report_of(v2)),
{
}

/// Two checkers that are both freshly built judge every shader alike: they
/// end alike, with equal parser errors, or validation errors that keep the
/// same source and carry the same report.
pub proof fn lemma_fresh_checkers_agree(
    shader: &str,
    first_validator: FullValidator,
    second_validator: FullValidator,
    first: Result<(), WgslError>,
    second: Result<(), WgslError>,
)
    requires
        crate::naga_support::is_fresh(first_validator),
        crate::naga_support::is_fresh(second_validator),
        validation_outcome(shader, first_validator, first),
        validation_outcome(shader, second_validator, second),
    ensures
        first is Ok <==> second is Ok,
        first matches Err(WgslError::ParserErr { error: e1, line: l1, pos: p1 }) ==> (
        second matches Err(WgslError::ParserErr { error: e2, line: l2, pos: p2 }) && e1@ == e2@
            && l1 == l2 && p1 == p2),
        first matches Err(WgslError::ValidationErr { src: s1, error: v1 }) ==> (
        second matches Err(WgslError::ValidationErr { src: s2, error: v2 }) && s1@ == s2@
            && crate::naga_support::report_of(v1) == crate::naga_support::report_of(v2)),
{
}

/// A shader that parses but that the validator refuses never checks as
/// valid: checking succeeds exactly when the shader parses and the validator
/// (in its state before the check) accepts the module; every refusal,
/// whatever spans its report carries, is a validation error that keeps the
/// shader's source and carries that report; a shader that does not parse is
/// a parser error with naga's report, placed as naga's `ParseError::location`
/// places it (0 and 0 only where it has no label or would panic).
pub proof fn lemma_refused_shader_is_never_valid(
    shader: &str,
    validator: FullValidator,
    r: Result<(), WgslError>,
)
    requires
        validation_outcome(shader, validator, r),
    ensures
        match crate::naga_support::wgsl_parse(shader@) {
            crate::naga_support::WgslParse::Parsed { validation, .. } => match validation(validator) {
                None => r is Ok,
                Some(report) => match r {
                    Err(WgslError::ValidationErr { src, error }) => src@ == shader@
                        && crate::naga_support::validation_spans(error) == report.spans
                        && crate::naga_support::validation_error_message(error) == report.message
                        && crate::naga_support::validation_error_debug_text(error) == report.debug,
                    _ => false,
                },
            },
            crate::naga_support::WgslParse::Failed { report, labels } => match r {
                Err(WgslError::ParserErr { error, line, pos }) => {
                    let bytes = vstd::utf8::encode_utf8(shader@);
                    &&& error@ == report
                    &&& if labels.len() > 0 && labels[0].0 <= labels[0].1 && labels[0].0 < 0xffff_ffffu32
                        && labels[0].0 <= bytes.len() && vstd::utf8::is_char_boundary(bytes, labels[0].0 as int) {
                        &&& line as int == crate::naga_support::offset_location(shader@, labels[0].0 as int).0
                        &&& pos as int == crate::naga_support::offset_location(shader@, labels[0].0 as int).1
                        &&& line >= 1
                        &&& pos >= 1
                    } else {
                        line == 0 && pos == 0
                    }
                },
                _ => false,
            },
        },
{
    if let crate::naga_support::WgslParse::Failed { report, labels } = crate::naga_support::wgsl_parse(shader@) {
        if let Err(e) = r {
            crate::wgsl_error::lemma_parse_error_placed_as_naga_places_it(shader@, report, labels, e);
        }
    }
}

} // verus!
