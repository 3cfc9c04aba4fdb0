//! Data model for the grammar-check response: the issues the service
//! reports for a submitted text, in the order it returned them.

use vstd::prelude::*;

verus! {

/// One suggested corrected string for an issue.
pub struct Replacement {
    pub value: String,
}

/// A short excerpt of text surrounding an issue, as supplied by the
/// service, with the span's position within the excerpt itself.
pub struct Context {
    pub text: String,
    pub offset: usize,
    pub length: usize,
}

/// The service's classification label for a rule ("grammar", "typography", ...).
pub struct Category {
    pub name: String,
}

/// The rule that produced an issue; only its category is rendered.
pub struct Rule {
    pub category: Category,
}

/// One detected issue. `offset` and `length` locate the offending span in
/// the submitted text, counted in Unicode scalar values; they come from the
/// service and may reach past the end of the local text.
pub struct Match {
    pub message: String,
    pub offset: usize,
    pub length: usize,
    pub replacements: Vec<Replacement>,
    pub context: Context,
    pub rule: Rule,
}

/// The whole response: the issues in the order the service returned them.
pub struct CheckResult {
    pub matches: Vec<Match>,
}

/// Mathematical image of a `Replacement`.
pub ghost struct ReplacementV {
    pub value: Seq<char>,
}

/// Mathematical image of a `Context`.
pub ghost struct ContextV {
    pub text: Seq<char>,
    pub offset: int,
    pub length: int,
}

/// Mathematical image of a `Category`.
pub ghost struct CategoryV {
    pub name: Seq<char>,
}

/// Mathematical image of a `Rule`.
pub ghost struct RuleV {
    pub category: CategoryV,
}

/// Mathematical image of a `Match`.
pub ghost struct MatchV {
    pub message: Seq<char>,
    pub offset: int,
    pub length: int,
    pub replacements: Seq<ReplacementV>,
    pub context: ContextV,
    pub rule: RuleV,
}

/// The mathematical images of a sequence of replacements.
pub open spec fn rep_views(reps: Seq<Replacement>) -> Seq<ReplacementV> {
    reps.map_values(|r: Replacement| r@)
}

/// The mathematical images of a sequence of matches.
pub open spec fn match_views(ms: Seq<Match>) -> Seq<MatchV> {
    ms.map_values(|m: Match| m@)
}

impl View for Replacement {
    type V = ReplacementV;

    open spec fn view(&self) -> ReplacementV {
        ReplacementV { value: self.value@ }
    }
}

impl View for Context {
    type V = ContextV;

    open spec fn view(&self) -> ContextV {
        ContextV { text: self.text@, offset: self.offset as int, length: self.length as int }
    }
}

impl View for Category {
    type V = CategoryV;

    open spec fn view(&self) -> CategoryV {
        CategoryV { name: self.name@ }
    }
}

impl View for Rule {
    type V = RuleV;

    open spec fn view(&self) -> RuleV {
        RuleV { category: self.category@ }
    }
}

impl View for Match {
    type V = MatchV;

    open spec fn view(&self) -> MatchV {
        MatchV {
            message: self.message@,
            offset: self.offset as int,
            length: self.length as int,
            replacements: rep_views(self.replacements@),
            context: self.context@,
            rule: self.rule@,
        }
    }
}

impl View for CheckResult {
    type V = Seq<MatchV>;

    open spec fn view(&self) -> Seq<MatchV> {
        match_views(self.matches@)
    }
}

} // verus!
