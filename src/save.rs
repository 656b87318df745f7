//! Save mode: the request documents of an application label, each with the
//! numbered file name it is written under.

use vstd::prelude::*;

use crate::label::AppLabel;
use crate::request::{RenderError, all_renderable, create_request, request_doc};

verus! {

/// The decimal digit `d` as a character.
pub open spec fn digit_char(d: nat) -> char {
    ((d + 48) as u32) as char
}

/// The decimal notation of `n`, without leading zeros.
pub open spec fn decimal(n: nat) -> Seq<char>
    decreases n,
{
    if n < 10 {
        seq![digit_char(n)]
    } else {
        decimal(n / 10).push(digit_char(n % 10))
    }
}

/// The name of the file that holds the `n`-th request: `request_<n>.xml`.
pub open spec fn file_name(n: nat) -> Seq<char> {
    "request_"@ + decimal(n) + ".xml"@
}

/// A rendered request and the name of the file it is saved under.
#[derive(Clone, Debug)]
pub struct RequestFile {
    pub name: String,
    pub contents: String,
}

/// Why the requests could not be prepared for saving.
#[derive(Clone, Copy, Debug, PartialEq, Eq, Structural)]
pub enum SaveError {
    /// The output path is not an existing directory.
    Config,
    /// A request could not be rendered.
    Render(RenderError),
}

fn to_digit(d: usize) -> (c: char)
    requires
        d < 10,
    ensures
        c == digit_char(d as nat),
{
    let b: u8 = d as u8 + 48;
    b as char
}

fn push_decimal(out: &mut String, n: usize)
    ensures
        final(out)@ == old(out)@ + decimal(n as nat),
    decreases n,
{
    if n >= 10 {
        push_decimal(out, n / 10);
    }
    let c = to_digit(n % 10);
    out.push(c);
    proof {
        if n < 10 {
            assert(decimal(n as nat) == seq![c]);
        }
    }
}

/// The name of the file that holds the `n`-th request (counting from 1).
pub fn request_file_name(n: usize) -> (r: String)
    ensures
        r@ == file_name(n as nat),
{
    let mut name = String::from_str("request_");
    push_decimal(&mut name, n);
    name.append(".xml");
    proof {
        assert(name@ =~= file_name(n as nat));
    }
    name
}

/// Prepares save mode: checks first that the output path is a directory
/// (`dir_is_dir`), failing with `Config` before anything is rendered when it
/// is not; then renders each API label in order and pairs the `i`-th request
/// (from 0) with the name `request_<i + 1>.xml`.
pub fn create_requests_and_save(app: &AppLabel, dir_is_dir: bool) -> (r: Result<Vec<RequestFile>, SaveError>)
    ensures
        !dir_is_dir ==> r == Err::<Vec<RequestFile>, SaveError>(SaveError::Config),
        dir_is_dir ==> (r is Ok <==> all_renderable(app@)),
        dir_is_dir && !all_renderable(app@)
            ==> r == Err::<Vec<RequestFile>, SaveError>(SaveError::Render(RenderError::MissingBehavior)),
        r is Ok ==> r->Ok_0.len() == app@.api_labels.len(),
        r is Ok ==> forall|i: int| 0 <= i < app@.api_labels.len()
            ==> (#[trigger] r->Ok_0[i]).name@ == file_name((i + 1) as nat)
                && r->Ok_0[i].contents@ == request_doc(app@.app_name, app@.api_labels[i]),
{
    if !dir_is_dir {
        return Err(SaveError::Config);
    }
    let mut files: Vec<RequestFile> = Vec::new();
    let mut i: usize = 0;
    while i < app.api_labels.len()
        invariant
            dir_is_dir,
            i <= app.api_labels.len(),
            files.len() == i,
            forall|k: int| 0 <= k < i ==> #[trigger] app@.api_labels[k].behaviors.len() > 0,
            forall|k: int| 0 <= k < i
                ==> (#[trigger] files[k]).name@ == file_name((k + 1) as nat)
                    && files[k].contents@ == request_doc(app@.app_name, app@.api_labels[k]),
        decreases app.api_labels.len() - i,
    {
        assert(app@.api_labels[i as int] == app.api_labels@[i as int]@);
        match create_request(&app.api_labels[i], app.app_name.as_str()) {
            Ok(contents) => {
                let name = request_file_name(i + 1);
                files.push(RequestFile { name, contents });
            },
            Err(e) => {
                return Err(SaveError::Render(e));
            },
        }
        i += 1;
    }
    Ok(files)
}

proof fn lemma_decimal_len(n: nat)
    ensures
        decimal(n).len() >= 1,
        n >= 10 ==> decimal(n).len() >= 2,
    decreases n,
{
    if n >= 10 {
        lemma_decimal_len(n / 10);
    }
}

proof fn lemma_digit_injective(a: nat, b: nat)
    requires
        a < 10,
        b < 10,
        digit_char(a) == digit_char(b),
    ensures
        a == b,
{
    assert(digit_char(a) as u32 == a + 48);
    assert(digit_char(b) as u32 == b + 48);
}

proof fn lemma_decimal_injective(a: nat, b: nat)
    requires
        decimal(a) == decimal(b),
    ensures
        a == b,
    decreases a,
{
    lemma_decimal_len(a);
    lemma_decimal_len(b);
    if a < 10 && b < 10 {
        assert(decimal(a)[0] == digit_char(a));
        assert(decimal(b)[0] == digit_char(b));
        lemma_digit_injective(a, b);
    } else if a >= 10 && b >= 10 {
        let da = decimal(a);
        assert(da.last() == digit_char(a % 10));
        assert(decimal(b).last() == digit_char(b % 10));
        lemma_digit_injective(a % 10, b % 10);
        assert(da.drop_last() =~= decimal(a / 10));
        assert(decimal(b).drop_last() =~= decimal(b / 10));
        lemma_decimal_injective(a / 10, b / 10);
    }
}

/// Distinct request numbers give distinct file names, so saving N requests
/// leaves N files, one for each number from 1 to N.
pub proof fn lemma_file_names_distinct(i: nat, j: nat)
    requires
        i != j,
    ensures
        file_name(i) != file_name(j),
{
    if file_name(i) == file_name(j) {
        let p = "request_"@;
        let di = decimal(i);
        let dj = decimal(j);
        assert(file_name(i).len() == p.len() + di.len() + ".xml"@.len());
        assert(file_name(j).len() == p.len() + dj.len() + ".xml"@.len());
        assert(di.len() == dj.len());
        assert(file_name(i).subrange(p.len() as int, (p.len() + di.len()) as int) =~= di);
        assert(file_name(j).subrange(p.len() as int, (p.len() + dj.len()) as int) =~= dj);
        lemma_decimal_injective(i, j);
    }
}

} // verus!
