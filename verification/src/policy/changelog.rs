//! Changelog policy, and the section a commit type belongs to.
use vstd::prelude::*;
use crate::config::types::BaseConfig;

use crate::check::{opt_view, texts};
use crate::config::defaults::default_section_order_texts;
use crate::config::types::ChangelogSectionConfig;
use crate::enforcement::ChangelogFormat;
use crate::policy::commit::{has_text, list_has_text};
use crate::runtime::ResolvedConfig;
use crate::text::owned;

verus! {

/// Changelog header.
#[derive(Debug, Clone)]
pub struct ChangelogHeaderModel {
    pub use_header: bool,
    pub title: String,
    pub description: Option<String>,
}

/// One changelog section.
#[derive(Debug, Clone)]
pub struct ChangelogSectionModel {
    pub title: Option<String>,
    pub order: Option<i32>,
}

/// Output format of the changelog.
#[derive(Debug, Clone, Copy, PartialEq, Eq, Structural)]
pub enum ChangelogOutputFormat {
    Markdown,
    Json,
}

/// The output format a configured format stands for.
pub open spec fn output_format_of(v: ChangelogFormat) -> ChangelogOutputFormat {
    match v {
        ChangelogFormat::Markdown => ChangelogOutputFormat::Markdown,
        ChangelogFormat::Json => ChangelogOutputFormat::Json,
    }
}

impl From<ChangelogFormat> for ChangelogOutputFormat {
    fn from(value: ChangelogFormat) -> (r: Self) {
        match value {
            ChangelogFormat::Markdown => Self::Markdown,
            ChangelogFormat::Json => Self::Json,
        }
    }
}

impl vstd::std_specs::convert::FromSpecImpl<ChangelogFormat> for ChangelogOutputFormat {
    open spec fn obeys_from_spec() -> bool {
        true
    }

    open spec fn from_spec(v: ChangelogFormat) -> Self {
        output_format_of(v)
    }
}

/// Changelog policy. Sections are `(key, section)` pairs in key order.
#[derive(Debug, Clone)]
pub struct ChangelogModel {
    pub output: String,
    pub format: ChangelogOutputFormat,
    pub header: ChangelogHeaderModel,
    pub group_by: Vec<String>,
    pub section_order: Vec<String>,
    pub scope_order: Vec<String>,
    pub show_scope: bool,
    pub show_empty_sections: Option<bool>,
    pub show_empty_scopes: Option<bool>,
    pub misc_section: Option<String>,
    pub unreleased_label: String,
    pub date_format: Option<String>,
    pub sections: Vec<(String, ChangelogSectionModel)>,
}

/// A section model with the title and order of a configured section.
pub open spec fn section_matches(
    m: (String, ChangelogSectionModel),
    c: (String, ChangelogSectionConfig),
) -> bool {
    m.0 == c.0 && m.1.title == c.1.title && m.1.order == c.1.order
}

impl Default for ChangelogModel {
    fn default() -> (r: Self)
        ensures
            changelog_model_default(r),
    {
        ChangelogModel {
            output: owned("CHANGELOG.md"),
            format: ChangelogOutputFormat::Markdown,
            header: ChangelogHeaderModel {
                use_header: true,
                title: owned("Changelog"),
                description: None,
            },
            group_by: crate::config::defaults::default_changelog_group_by(),
            section_order: crate::config::defaults::default_changelog_section_order(),
            scope_order: Vec::new(),
            show_scope: true,
            show_empty_sections: Some(false),
            show_empty_scopes: Some(false),
            misc_section: Some(owned("Miscellaneous")),
            unreleased_label: owned("Unreleased"),
            date_format: None,
            sections: Vec::new(),
        }
    }
}

impl ChangelogModel {
    /// The changelog policy of a configuration.
    pub fn from_config(config: &ResolvedConfig) -> (r: Self)
        ensures
            changelog_model_of(r, config.base),
    {
        let base = &config.base;
        let table = base.changelog_sections();
        let mut sections: Vec<(String, ChangelogSectionModel)> = Vec::new();
        let mut i: usize = 0;
        while i < table.len()
            invariant
                0 <= i <= table@.len(),
                table@ == base.spec_changelog_sections(),
                sections@.len() == i,
                forall|j: int|
                    0 <= j < i ==> section_matches(#[trigger] sections@[j], table@[j]),
            decreases table@.len() - i,
        {
            let e = &table[i];
            let title = match &e.1.title {
                Some(t) => Some(t.clone()),
                None => None,
            };
            sections.push((e.0.clone(), ChangelogSectionModel { title, order: e.1.order }));
            i = i + 1;
        }
        ChangelogModel {
            output: base.changelog_output(),
            format: ChangelogOutputFormat::from(base.changelog_format()),
            header: ChangelogHeaderModel {
                use_header: base.changelog_header_use(),
                title: base.changelog_header_title(),
                description: base.changelog_header_description(),
            },
            group_by: base.changelog_group_by(),
            section_order: base.changelog_section_order(),
            scope_order: base.changelog_scope_order(),
            show_scope: base.changelog_show_scope(),
            show_empty_sections: base.changelog_show_empty_sections(),
            show_empty_scopes: base.changelog_show_empty_scopes(),
            misc_section: base.changelog_misc_section(),
            unreleased_label: base.changelog_unreleased_label(),
            date_format: base.changelog_date_format(),
            sections,
        }
    }
}

/// Index of the first section whose types hold `typ`, or -1.
pub open spec fn section_index(sections: Seq<(String, Vec<String>)>, typ: Seq<char>) -> int
    decreases sections.len(),
{
    if sections.len() == 0 {
        -1
    } else if has_text(sections[0].1@, typ) {
        0
    } else {
        let r = section_index(sections.drop_first(), typ);
        if r < 0 {
            -1
        } else {
            r + 1
        }
    }
}

/// The section of a commit type: the first section (in key order) that lists
/// it, else `Uncategorized`.
pub fn section_for_type<'a>(sections: &'a Vec<(String, Vec<String>)>, typ: &'a str) -> (r: &'a str)
    ensures
        r@ == (if section_index(sections@, typ@) >= 0 {
            sections@[section_index(sections@, typ@)].0@
        } else {
            "Uncategorized"@
        }),
{
    let mut i: usize = 0;
    assert(sections@.subrange(0, sections@.len() as int) =~= sections@);
    while i < sections.len()
        invariant
            0 <= i <= sections@.len(),
            section_index(sections@, typ@) == if section_index(
                sections@.subrange(i as int, sections@.len() as int),
                typ@,
            ) >= 0 {
                section_index(sections@.subrange(i as int, sections@.len() as int), typ@) + i
            } else {
                -1
            },
        decreases sections@.len() - i,
    {
        let ghost rest = sections@.subrange(i as int, sections@.len() as int);
        assert(rest.drop_first() =~= sections@.subrange(i + 1, sections@.len() as int));
        assert(rest[0] == sections@[i as int]);
        if list_has_text(&sections[i].1, typ) {
            return sections[i].0.as_str();
        }
        i = i + 1;
    }
    "Uncategorized"
}

/// Whether a model holds what the settings `base` give.
pub open spec fn changelog_model_of(m: ChangelogModel, base: BaseConfig) -> bool {
    &&& m.output@ == base.spec_changelog_output()
    &&& m.format == output_format_of(base.spec_changelog_format())
    &&& m.header.use_header == base.spec_changelog_header_use()
    &&& m.header.title@ == base.spec_changelog_header_title()
    &&& opt_view(m.header.description) == base.spec_changelog_header_description()
    &&& texts(m.group_by@) == base.spec_changelog_group_by()
    &&& texts(m.section_order@) == base.spec_changelog_section_order()
    &&& texts(m.scope_order@) == base.spec_changelog_scope_order()
    &&& m.show_scope == base.spec_changelog_show_scope()
    &&& m.show_empty_sections == Some(base.spec_changelog_show_empty_sections())
    &&& m.show_empty_scopes == Some(base.spec_changelog_show_empty_scopes())
    &&& opt_view(m.misc_section) == Some(base.spec_changelog_misc_section())
    &&& m.unreleased_label@ == base.spec_changelog_unreleased_label()
    &&& opt_view(m.date_format) == base.spec_changelog_date_format()
    &&& m.sections@.len() == base.spec_changelog_sections().len()
    &&& forall|i: int|
            0 <= i < m.sections@.len() ==> section_matches(
                #[trigger] m.sections@[i],
                base.spec_changelog_sections()[i],
            )
}

/// Whether a model holds the defaults.
pub open spec fn changelog_model_default(m: ChangelogModel) -> bool {
    &&& m.output@ == "CHANGELOG.md"@
    &&& m.format == ChangelogOutputFormat::Markdown
    &&& m.header.use_header && m.header.title@ == "Changelog"@ && m.header.description is None
    &&& texts(m.group_by@) == seq!["type"@]
    &&& texts(m.section_order@) == default_section_order_texts()
    &&& m.scope_order@.len() == 0
    &&& m.show_scope
    &&& m.show_empty_sections == Some(false)
    &&& m.show_empty_scopes == Some(false)
    &&& opt_view(m.misc_section) == Some("Miscellaneous"@)
    &&& m.unreleased_label@ == "Unreleased"@
    &&& m.date_format is None
    &&& m.sections@.len() == 0
}

} // verus!
