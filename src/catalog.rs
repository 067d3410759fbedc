use vstd::prelude::*;
use vstd::string::*;

use crate::error::{ErrorKind, UdpipeError};
use crate::text::str_eq;

verus! {

/// Where the Universal Dependencies 2.5 models are published.
pub const MODEL_BASE_URL: &'static str =
    "https://lindat.mff.cuni.cz/repository/xmlui/bitstream/handle/11234/1-3131";

/// Identifiers of the pre-trained Universal Dependencies 2.5 models, sorted.
pub const AVAILABLE_MODELS: [&'static str; 101] = [
    "afrikaans-afribooms",
    "ancient_greek-perseus",
    "ancient_greek-proiel",
    "arabic-padt",
    "armenian-armtdp",
    "basque-bdt",
    "belarusian-hse",
    "bulgarian-btb",
    "buryat-bdt",
    "catalan-ancora",
    "chinese-gsd",
    "chinese-gsdsimp",
    "classical_chinese-kyoto",
    "coptic-scriptorium",
    "croatian-set",
    "czech-cac",
    "czech-cltt",
    "czech-fictree",
    "czech-pdt",
    "danish-ddt",
    "dutch-alpino",
    "dutch-lassysmall",
    "english-ewt",
    "english-gum",
    "english-lines",
    "english-partut",
    "estonian-edt",
    "estonian-ewt",
    "finnish-ftb",
    "finnish-tdt",
    "french-gsd",
    "french-partut",
    "french-sequoia",
    "french-spoken",
    "galician-ctg",
    "galician-treegal",
    "german-gsd",
    "german-hdt",
    "gothic-proiel",
    "greek-gdt",
    "hebrew-htb",
    "hindi-hdtb",
    "hungarian-szeged",
    "indonesian-gsd",
    "irish-idt",
    "italian-isdt",
    "italian-partut",
    "italian-postwita",
    "italian-twittiro",
    "italian-vit",
    "japanese-gsd",
    "kazakh-ktb",
    "korean-gsd",
    "korean-kaist",
    "kurmanji-mg",
    "latin-ittb",
    "latin-perseus",
    "latin-proiel",
    "latvian-lvtb",
    "lithuanian-alksnis",
    "lithuanian-hse",
    "maltese-mudt",
    "marathi-ufal",
    "north_sami-giella",
    "norwegian-bokmaal",
    "norwegian-nynorsk",
    "norwegian-nynorsklia",
    "old_church_slavonic-proiel",
    "old_french-srcmf",
    "old_russian-torot",
    "persian-seraji",
    "polish-lfg",
    "polish-pdb",
    "polish-sz",
    "portuguese-bosque",
    "portuguese-br",
    "portuguese-gsd",
    "romanian-nonstandard",
    "romanian-rrt",
    "russian-gsd",
    "russian-syntagrus",
    "russian-taiga",
    "sanskrit-ufal",
    "scottish_gaelic-arcosg",
    "serbian-set",
    "slovak-snk",
    "slovenian-ssj",
    "slovenian-sst",
    "spanish-ancora",
    "spanish-gsd",
    "swedish-lines",
    "swedish-talbanken",
    "tamil-ttb",
    "telugu-mtg",
    "turkish-imst",
    "ukrainian-iu",
    "upper_sorbian-ufal",
    "urdu-udtb",
    "uyghur-udt",
    "vietnamese-vtb",
    "wolof-wtb",
];

/// `language` is one of the catalog's identifiers.
pub open spec fn in_catalog(language: Seq<char>) -> bool {
    exists|i: int| 0 <= i < AVAILABLE_MODELS@.len() && #[trigger] AVAILABLE_MODELS@[i]@ == language
}

/// The file name of the model for `language`.
pub open spec fn filename_of(language: Seq<char>) -> Seq<char> {
    language + "-ud-2.5-191206.udpipe"@
}

/// The address from which the model for `language` is fetched.
pub open spec fn url_of(language: Seq<char>) -> Seq<char> {
    MODEL_BASE_URL@ + "/"@ + filename_of(language)
}

/// The path of the file `name` in the directory `dir`: a separator is put
/// between them unless `dir` is empty or already ends with one.
pub open spec fn join_path(dir: Seq<char>, name: Seq<char>) -> Seq<char> {
    if dir.len() == 0 || dir.last() == '/' {
        dir + name
    } else {
        dir + "/"@ + name
    }
}

/// The first `k` catalog identifiers, separated by `, `.
pub open spec fn catalog_preview(k: int) -> Seq<char>
    decreases k,
{
    if k <= 0 {
        Seq::empty()
    } else if k == 1 {
        AVAILABLE_MODELS@[0]@
    } else {
        catalog_preview(k - 1) + ", "@ + AVAILABLE_MODELS@[k - 1]@
    }
}

/// How many identifiers the message for an unknown language shows.
pub const PREVIEW_LEN: usize = 5;

/// The message for an unknown language identifier.
pub open spec fn unknown_language_message(language: Seq<char>) -> Seq<char> {
    "Unknown language '"@ + language + "'. Use one of: "@ + catalog_preview(PREVIEW_LEN as int)
        + ", ..."@
}

/// Where to fetch the model of a language from, and where to store it.
#[derive(Debug, Clone)]
pub struct ModelDownload {
    /// The address of the model file.
    pub url: String,
    /// The path at which the model file is to be stored.
    pub path: String,
}

/// Returns the expected filename for a given language model.
pub fn model_filename(language: &str) -> (r: String)
    ensures
        r@ == filename_of(language@),
{
    String::from_str(language).concat("-ud-2.5-191206.udpipe")
}

/// The path of the file `name` in the directory `dir`.
pub fn join_dir(dir: &str, name: &str) -> (r: String)
    ensures
        r@ == join_path(dir@, name@),
{
    let n = dir.unicode_len();
    if n == 0 || dir.get_char(n - 1) == '/' {
        String::from_str(dir).concat(name)
    } else {
        String::from_str(dir).concat("/").concat(name)
    }
}

/// The first `k` catalog identifiers, separated by `, `.
fn preview(k: usize) -> (r: String)
    requires
        k <= AVAILABLE_MODELS@.len(),
    ensures
        r@ == catalog_preview(k as int),
{
    let mut out = String::new();
    let mut i: usize = 0;
    while i < k
        invariant
            k <= AVAILABLE_MODELS@.len(),
            i <= k,
            out@ == catalog_preview(i as int),
        decreases k - i,
    {
        if i > 0 {
            out.append(", ");
        }
        out.append(AVAILABLE_MODELS[i]);
        i = i + 1;
    }
    out
}

/// Resolves a language identifier to the model file to fetch and the path in
/// `dest_dir` to store it at. Fails with [`ErrorKind::InvalidArgument`]
/// exactly when `language` is not in [`AVAILABLE_MODELS`].
pub fn download_model(language: &str, dest_dir: &str) -> (r: Result<ModelDownload, UdpipeError>)
    ensures
        r is Ok <==> in_catalog(language@),
        r matches Ok(d) ==> d.url@ == url_of(language@) && d.path@ == join_path(
            dest_dir@,
            filename_of(language@),
        ),
        r matches Err(e) ==> e.kind == ErrorKind::InvalidArgument && e.message@
            == unknown_language_message(language@),
{
    if !is_available(language) {
        let message = String::from_str("Unknown language '").concat(language).concat(
            "'. Use one of: ",
        ).concat(preview(PREVIEW_LEN).as_str()).concat(", ...");
        return Err(UdpipeError { kind: ErrorKind::InvalidArgument, message });
    }
    let filename = model_filename(language);
    let url = String::from_str(MODEL_BASE_URL).concat("/").concat(filename.as_str());
    let path = join_dir(dest_dir, filename.as_str());
    Ok(ModelDownload { url, path })
}

/// Checks a fetched model file: fails with [`ErrorKind::TransferFailed`]
/// exactly when it is empty.
pub fn check_payload(data: &[u8]) -> (r: Result<(), UdpipeError>)
    ensures
        r is Err <==> data@.len() == 0,
        r matches Err(e) ==> e.kind == ErrorKind::TransferFailed && e.message@
            == "Downloaded file is empty"@,
{
    if data.len() == 0 {
        Err(UdpipeError::with_kind(ErrorKind::TransferFailed, "Downloaded file is empty"))
    } else {
        Ok(())
    }
}

/// Whether `language` is one of the catalog's identifiers.
pub fn is_available(language: &str) -> (r: bool)
    ensures
        r == in_catalog(language@),
{
    let n = AVAILABLE_MODELS.len();
    let mut i: usize = 0;
    while i < n
        invariant
            n == AVAILABLE_MODELS@.len(),
            i <= n,
            forall|j: int| 0 <= j < i ==> #[trigger] AVAILABLE_MODELS@[j]@ != language@,
        decreases n - i,
    {
        if str_eq(AVAILABLE_MODELS[i], language) {
            return true;
        }
        i = i + 1;
    }
    false
}

} // verus!
