use vstd::prelude::*;
use handlebars::{Handlebars, RenderError};
use serde_json::Value;
use crate::text::{braced_text, currency_text, format_currency, include_pdf, include_pdf_text,
    multiline, multiline_text, override_braces, push_decimal, decimal};

verus! {

#[verifier::external_type_specification]
#[verifier::external_body]
pub struct ExHandlebars<'reg>(Handlebars<'reg>);

#[verifier::external_type_specification]
#[verifier::external_body]
pub struct ExValue(Value);

#[verifier::external_type_specification]
#[verifier::external_body]
pub struct ExRenderError(RenderError);

/// Relies on handlebars::Handlebars::render_template: fills the template
/// string with the data through the registry's helpers, or reports the
/// failure without output.
#[verifier::external_body]
fn render_template(
    registry: &Handlebars<'_>,
    template: &str,
    data: &Value,
) -> (r: Result<String, RenderError>) {
    registry.render_template(template, data)
}

/// Relies on the Display impl of handlebars::RenderError: the description of
/// the failure with its place in the template.
#[verifier::external_body]
fn render_error_text(e: &RenderError) -> (r: String) {
    e.to_string()
}

/// The directory that holds the scratch files of the builds.
pub const SCRATCH_DIR: &'static str = "/tmp/gnome-factures/";

/// The template used when none is given.
pub const DEFAULT_TEMPLATE: &'static str = "\\documentclass[11pt,a4paper]{article}
\\usepackage[french]{babel}
\\usepackage{fontspec}
\\usepackage{pdfpages}
\\usepackage{tabularx}
\\usepackage[margin=2cm]{geometry}
\\pagestyle{empty}
\\begin{document}

{\\Large\\bfseries {{invoice.author.title}} }\\\\
{{multiline invoice.author.name}}\\\\
{{invoice.author.address.number_and_street}}\\\\
{{invoice.author.address.postcode}} {{invoice.author.address.city}}\\\\
SIRET : {{invoice.author.siret}} -- APE : {{invoice.author.ape}}\\\\
{{#if invoice.author.email}}{{invoice.author.email}}\\\\
{{/if}}

\\hfill\\begin{minipage}{0.45\\textwidth}
\\textbf{{override_braces invoice.client.name}}\\\\
{{invoice.client.address.number_and_street}}\\\\
{{invoice.client.address.postcode}} {{invoice.client.address.city}}\\\\
{{#if invoice.client.siret}}SIRET : {{invoice.client.siret}}\\\\
{{/if}}
{{#if invoice.client.custom_field}}{{multiline invoice.client.custom_field}}\\\\
{{/if}}
\\end{minipage}

\\bigskip
\\textbf{ {{#if invoice.is_devis}}Devis{{else}}Facture{{/if}} n\\textsuperscript{o} {{invoice.number}} }
\\hfill Le {{invoice.date}}

\\medskip
{{multiline invoice.nature}}

\\medskip
\\begin{tabularx}{\\textwidth}{|X|r|r|r|}
\\hline
D\\'esignation & Quantit\\'e & Prix unitaire & Total \\\\
\\hline
{{#each invoice.products}}
\\textbf{{override_braces this.name}} \\newline {{multiline this.description}} & {{this.quantity}} & {{frfloat this.price_cents}} EUR & {{frfloat this.total_cents}} EUR \\\\
\\hline
{{/each}}
\\multicolumn{3}{|r|}{\\textbf{Total}} & {{frfloat invoice.total_cents}} EUR \\\\
\\hline
\\end{tabularx}

{{#if invoice.author.iban}}
\\medskip
IBAN : {{invoice.author.iban}}
{{/if}}

{{#if invoice.diffuseur}}
{{includepdf invoice.dispense_path}}
{{/if}}
\\end{document}
";

/// The helpers that a template may call.
#[derive(Debug, Clone, Copy, PartialEq, Eq, Structural)]
pub enum TemplateHelper {
    /// an amount of cents, with two decimals and a decimal comma
    Currency,
    /// text whose newlines become explicit line breaks
    Multiline,
    /// a path spliced into an include directive
    IncludePdf,
    /// text between literal braces
    OverrideBraces,
}

/// The first parameter that a template passed to a helper.
#[derive(Debug, Clone, PartialEq, Eq)]
pub enum HelperArg {
    Missing,
    Text(String),
    /// a non-negative whole number
    Number(u64),
    /// any other value
    Other,
}

/// Why a helper could not run.
#[derive(Debug, Clone, Copy, PartialEq, Eq, Structural)]
pub enum HelperError {
    MissingParam,
    WrongParamType,
}

/// What a helper writes for an argument, if it accepts it.
pub open spec fn helper_output(helper: TemplateHelper, arg: HelperArg) -> Result<Seq<char>, HelperError> {
    match arg {
        HelperArg::Missing => Err(HelperError::MissingParam),
        HelperArg::Number(n) => match helper {
            TemplateHelper::Currency => Ok(currency_text(n as nat)),
            _ => Err(HelperError::WrongParamType),
        },
        HelperArg::Text(s) => match helper {
            TemplateHelper::Currency => Err(HelperError::WrongParamType),
            TemplateHelper::Multiline => Ok(multiline_text(s@)),
            TemplateHelper::IncludePdf => Ok(include_pdf_text(s@)),
            TemplateHelper::OverrideBraces => Ok(braced_text(s@)),
        },
        HelperArg::Other => Err(HelperError::WrongParamType),
    }
}

impl TemplateHelper {
    /// The helper registered under `name`.
    pub fn from_name(name: &str) -> (r: Option<TemplateHelper>)
        ensures
            r == TemplateHelper::from_name_spec(name@),
    {
        if str_eq(name, "frfloat") {
            Some(TemplateHelper::Currency)
        } else if str_eq(name, "multiline") {
            Some(TemplateHelper::Multiline)
        } else if str_eq(name, "includepdf") {
            Some(TemplateHelper::IncludePdf)
        } else if str_eq(name, "override_braces") {
            Some(TemplateHelper::OverrideBraces)
        } else {
            None
        }
    }

    /// The name under which the helper is registered.
    pub fn name(self) -> (r: &'static str)
        ensures
            TemplateHelper::from_name_spec(r@) == Some(self),
    {
        proof {
            reveal_strlit("frfloat");
            reveal_strlit("multiline");
            reveal_strlit("includepdf");
            reveal_strlit("override_braces");
        }
        assert("frfloat"@.len() == 7);
        assert("multiline"@.len() == 9);
        assert("includepdf"@.len() == 10);
        assert("override_braces"@.len() == 15);
        match self {
            TemplateHelper::Currency => "frfloat",
            TemplateHelper::Multiline => "multiline",
            TemplateHelper::IncludePdf => "includepdf",
            TemplateHelper::OverrideBraces => "override_braces",
        }
    }

    pub open spec fn from_name_spec(name: Seq<char>) -> Option<TemplateHelper> {
        if name == "frfloat"@ {
            Some(TemplateHelper::Currency)
        } else if name == "multiline"@ {
            Some(TemplateHelper::Multiline)
        } else if name == "includepdf"@ {
            Some(TemplateHelper::IncludePdf)
        } else if name == "override_braces"@ {
            Some(TemplateHelper::OverrideBraces)
        } else {
            None
        }
    }

    /// Runs the helper on its first parameter.
    pub fn apply(self, arg: &HelperArg) -> (r: Result<String, HelperError>)
        ensures
            match (r, helper_output(self, *arg)) {
                (Ok(s), Ok(t)) => s@ == t,
                (Err(e), Err(f)) => e == f,
                _ => false,
            },
    {
        match arg {
            HelperArg::Missing => Err(HelperError::MissingParam),
            HelperArg::Number(n) => match self {
                TemplateHelper::Currency => Ok(format_currency(*n as u128)),
                _ => Err(HelperError::WrongParamType),
            },
            HelperArg::Text(s) => match self {
                TemplateHelper::Currency => Err(HelperError::WrongParamType),
                TemplateHelper::Multiline => Ok(multiline(s.as_str())),
                TemplateHelper::IncludePdf => Ok(include_pdf(s.as_str())),
                TemplateHelper::OverrideBraces => Ok(override_braces(s.as_str())),
            },
            HelperArg::Other => Err(HelperError::WrongParamType),
        }
    }
}

/// Whether two strings hold the same characters.
pub fn str_eq(a: &str, b: &str) -> (r: bool)
    ensures
        r == (a@ == b@),
{
    let n = a.unicode_len();
    if n != b.unicode_len() {
        return false;
    }
    let mut i: usize = 0;
    while i < n
        invariant
            n == a@.len(),
            n == b@.len(),
            i <= n,
            forall|j: int| 0 <= j < i ==> a@[j] == b@[j],
        decreases n - i,
    {
        if a.get_char(i) != b.get_char(i) {
            return false;
        }
        i = i + 1;
    }
    assert(a@ =~= b@);
    true
}


/// Why a template could not become a document.
#[derive(Debug, Clone, PartialEq, Eq)]
pub enum TemplateError {
    /// the template engine refused the template or the data; the text says why
    Render(String),
    /// the template must be filled before it is written or built
    NotFilled,
}

/// A LaTeX template, before or after it was filled with a document's data.
#[derive(Debug, Clone)]
pub struct Template {
    pub content: String,
    /// the content is the template's output, no longer its source
    pub filled: bool,
}

impl Template {
    /// The built-in template, not yet filled.
    pub fn new() -> (r: Template)
        ensures
            r.content@ == DEFAULT_TEMPLATE@,
            !r.filled,
    {
        Template { content: String::from_str(DEFAULT_TEMPLATE), filled: false }
    }

    /// A template with the given source text, not yet filled.
    pub fn from(content: &str) -> (r: Template)
        ensures
            r.content@ == content@,
            !r.filled,
    {
        Template { content: String::from_str(content), filled: false }
    }

    /// Renders the template with `data` through `registry`. On failure no
    /// text comes back, only the engine's explanation.
    pub fn fill(&self, registry: &Handlebars<'_>, data: &Value) -> (r: Result<Template, TemplateError>)
        ensures
            r matches Ok(t) ==> t.filled,
            r matches Err(e) ==> e is Render,
    {
        match render_template(registry, self.content.as_str(), data) {
            Ok(text) => Ok(Template { content: text, filled: true }),
            Err(e) => Err(TemplateError::Render(render_error_text(&e))),
        }
    }

    /// The text to be written out, which only a filled template has.
    pub fn filled_content(&self) -> (r: Result<String, TemplateError>)
        ensures
            self.filled ==> (r matches Ok(c) && c@ == self.content@),
            !self.filled ==> r == Err::<String, TemplateError>(TemplateError::NotFilled),
    {
        if !self.filled {
            return Err(TemplateError::NotFilled);
        }
        Ok(self.content.clone())
    }

    /// Prepares the build of a filled template under scratch paths of its
    /// own, `build_id` telling concurrent builds apart.
    pub fn compile(self, build_id: u64) -> (r: Result<BuildJob, TemplateError>)
        ensures
            self.filled ==> (r matches Ok(job) && job.source@ == self.content@
                && job.tex_path@ == scratch_path(build_id as nat, tex_ext())
                && job.pdf_path@ == scratch_path(build_id as nat, pdf_ext())),
            !self.filled ==> r == Err::<BuildJob, TemplateError>(TemplateError::NotFilled),
    {
        if !self.filled {
            return Err(TemplateError::NotFilled);
        }
        proof {
            reveal_strlit(".tex");
            reveal_strlit(".pdf");
        }
        Ok(
            BuildJob {
                source: self.content,
                tex_path: scratch_file(build_id, ".tex"),
                pdf_path: scratch_file(build_id, ".pdf"),
            },
        )
    }
}

pub open spec fn tex_ext() -> Seq<char> {
    seq!['.', 't', 'e', 'x']
}

pub open spec fn pdf_ext() -> Seq<char> {
    seq!['.', 'p', 'd', 'f']
}

/// The scratch file of build `id` with extension `ext`.
pub open spec fn scratch_path(id: nat, ext: Seq<char>) -> Seq<char> {
    SCRATCH_DIR@ + seq!['d', 'o', 'c', 'u', 'm', 'e', 'n', 't', '-'] + decimal(id) + ext
}

fn scratch_file(id: u64, ext: &str) -> (r: String)
    ensures
        r@ == scratch_path(id as nat, ext@),
{
    proof { reveal_strlit("document-"); }
    let mut out = String::from_str(SCRATCH_DIR);
    out.append("document-");
    push_decimal(&mut out, id as u128);
    out.append(ext);
    assert(out@ =~= scratch_path(id as nat, ext@));
    out
}

/// A built PDF document.
#[derive(Debug, Clone)]
pub struct PdfFile {
    pub path: String,
}

/// The typesetting engine run on the filled source.
pub const ENGINE: &'static str = "xelatex";

/// One build: the source to write at `tex_path`, from which the engine is
/// expected to produce `pdf_path`.
#[derive(Debug, Clone)]
pub struct BuildJob {
    pub source: String,
    pub tex_path: String,
    pub pdf_path: String,
}

/// What became of a build's outside work.
#[derive(Debug, Clone, PartialEq, Eq)]
pub enum EngineRun {
    /// the scratch directory or file could not be prepared
    ScratchFailed(String),
    /// the engine could not be started
    LaunchFailed(String),
    /// the engine ran and returned
    Finished { exit_ok: bool, stdout: String, stderr: String, output_exists: bool },
}

/// Why a build produced no document.
#[derive(Debug, Clone, PartialEq, Eq)]
pub enum BuildError {
    Template(TemplateError),
    /// the scratch directory or file could not be prepared
    Scratch(String),
    /// the engine could not be started
    Launch(String),
    /// the engine ran but left no document; its output is kept
    NoOutput { stdout: String, stderr: String },
}

pub open spec fn engine_args_spec(tex_path: Seq<char>) -> Seq<Seq<char>> {
    seq![
        "-interaction=nonstopmode"@,
        seq!['-', 'o', 'u', 't', 'p', 'u', 't', '-', 'd', 'i', 'r', 'e', 'c', 't', 'o', 'r', 'y', '=']
            + SCRATCH_DIR@,
        tex_path
    ]
}

impl BuildJob {
    /// The engine's arguments: non-interactive mode, the scratch directory
    /// for output, and the source file.
    pub fn engine_args(&self) -> (r: Vec<String>)
        ensures
            r@.len() == 3,
            forall|i: int| 0 <= i < 3 ==> #[trigger] r@[i]@ == engine_args_spec(self.tex_path@)[i],
    {
        proof { reveal_strlit("-output-directory="); }
        let mut dir = String::from_str("-output-directory=");
        dir.append(SCRATCH_DIR);
        assert(dir@ =~= engine_args_spec(self.tex_path@)[1]);
        let mut r: Vec<String> = Vec::new();
        r.push(String::from_str("-interaction=nonstopmode"));
        r.push(dir);
        r.push(self.tex_path.clone());
        r
    }

    /// The build's result. The document exists exactly when the engine left
    /// the expected file, whatever its exit status said: the engine also
    /// reports mere warnings as failure.
    pub fn finish(self, run: EngineRun) -> (r: Result<PdfFile, BuildError>)
        ensures
            match run {
                EngineRun::ScratchFailed(m) => r == Err::<PdfFile, BuildError>(BuildError::Scratch(m)),
                EngineRun::LaunchFailed(m) => r == Err::<PdfFile, BuildError>(BuildError::Launch(m)),
                EngineRun::Finished { exit_ok, stdout, stderr, output_exists } => if output_exists {
                    r matches Ok(pdf) && pdf.path@ == self.pdf_path@
                } else {
                    r == Err::<PdfFile, BuildError>(BuildError::NoOutput { stdout, stderr })
                },
            },
    {
        match run {
            EngineRun::ScratchFailed(m) => Err(BuildError::Scratch(m)),
            EngineRun::LaunchFailed(m) => Err(BuildError::Launch(m)),
            EngineRun::Finished { exit_ok, stdout, stderr, output_exists } => {
                if output_exists {
                    Ok(PdfFile { path: self.pdf_path })
                } else {
                    Err(BuildError::NoOutput { stdout, stderr })
                }
            },
        }
    }
}

} // verus!
