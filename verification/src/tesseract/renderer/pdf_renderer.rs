//! The arguments with which a PDF renderer is created.

use vstd::prelude::*;
use vstd::string::*;
use crate::leptonica::{PixError, path_argument, path_to_c_text};
use crate::tesseract::TextOnly;

verus! {

/// The C arguments of a PDF renderer: the output base name, the directory of
/// the trained data (which holds the PDF font), and the text-only flag.
#[derive(Debug, PartialEq, Eq)]
pub struct PdfRendererArguments {
    pub output: String,
    pub datadir: String,
    pub textonly: i32,
}

/// The output base name used when none is given.
pub open spec fn default_output() -> Seq<char> {
    seq!['s', 't', 'd', 'o', 'u', 't']
}

/// What becomes of the output name: the path's text, or the default.
pub open spec fn output_argument(output: Option<Option<&str>>) -> Result<Seq<char>, PixError> {
    match output {
        Some(path) => path_argument(path),
        None => Ok(default_output()),
    }
}

/// Checks and converts the arguments of a PDF renderer, given the output
/// path (if any) and the data directory, each as its text or as `None` when
/// it is not valid Unicode: the output path is checked first, then the data
/// directory, and the first failure is returned.
pub fn pdf_renderer_arguments(output: Option<Option<&str>>, datadir: Option<&str>, textonly: TextOnly) -> (res: Result<PdfRendererArguments, PixError>)
    ensures
        res is Ok <==> output_argument(output) is Ok && path_argument(datadir) is Ok,
        res matches Ok(a) ==> {
            &&& output_argument(output) == Ok::<Seq<char>, PixError>(a.output@)
            &&& path_argument(datadir) == Ok::<Seq<char>, PixError>(a.datadir@)
            &&& a.textonly == textonly.code()
        },
        res matches Err(e) ==> {
            ||| output_argument(output) == Err::<Seq<char>, PixError>(e)
            ||| (output_argument(output) is Ok && path_argument(datadir) == Err::<Seq<char>, PixError>(e))
        },
{
    let output_text = match output {
        Some(path) => path_to_c_text(path)?,
        None => {
            proof {
                reveal_strlit("stdout");
            }
            let text = String::from_str("stdout");
            assert(text@ =~= default_output());
            text
        },
    };
    let datadir_text = path_to_c_text(datadir)?;
    Ok(PdfRendererArguments { output: output_text, datadir: datadir_text, textonly: textonly.to_i32().unwrap() })
}

} // verus!
