//! Fixed-length random strings drawn uniformly from a configurable alphabet.
//!
//! A [`GenerationRequest`] names how many characters are wanted and from which
//! alphabet they are to be drawn. [`generate`] fulfils such a request, failing
//! with [`GenerationError::InvalidAlphabet`] exactly when the alphabet is
//! empty; [`generate_password`] is the classic special case over the uppercase
//! ASCII letters.

use rand::RngExt;
use vstd::prelude::*;

verus! {

/// The only error the generator reports: the request's alphabet holds no
/// characters, so there is nothing to draw from.
#[derive(Debug, Clone, Copy, PartialEq, Eq, Structural)]
pub enum GenerationError {
    InvalidAlphabet,
}

/// A request for one generated string: how many characters, and the alphabet
/// they are drawn from. Duplicate characters in the alphabet are allowed;
/// they merely bias the distribution towards themselves.
#[derive(Debug, Clone)]
pub struct GenerationRequest {
    pub length: usize,
    pub alphabet: Vec<char>,
}

impl GenerationRequest {
    /// An alphabet can be sampled from exactly when it holds at least one
    /// character.
    pub open spec fn has_valid_alphabet(self) -> bool {
        self.alphabet@.len() > 0
    }
}

/// Every character of `s` occurs somewhere in `alphabet`.
pub open spec fn drawn_from(s: Seq<char>, alphabet: Seq<char>) -> bool {
    forall|i: int| 0 <= i < s.len() ==> alphabet.contains(s[i])
}

/// Relies on `rand::RngExt::random_range` over the thread-local generator of
/// `rand::rng()`: a uniformly random value inside the given range, which must
/// not be empty.
#[verifier::external_body]
fn random_index(bound: usize) -> (r: usize)
    requires
        bound > 0,
    ensures
        r < bound,
{
    rand::rng().random_range(0..bound)
}

/// Relies on `String::push`: appends the given character to the end of the
/// string.
#[verifier::external_body]
fn push_char(s: &mut String, c: char)
    ensures
        final(s)@ == old(s)@.push(c),
{
    s.push(c)
}

/// Build the string that `indices` selects from `alphabet`: character `j` of
/// the result is `alphabet[indices[j]]`.
///
/// This is the deterministic heart of the generator. [`generate`] feeds it
/// freshly drawn random indices; a caller after reproducible output can feed
/// it any indices of its own.
pub fn string_from_indices(alphabet: &Vec<char>, indices: &Vec<usize>) -> (r: String)
    requires
        forall|j: int| 0 <= j < indices@.len() ==> indices@[j] < alphabet@.len(),
    ensures
        r@.len() == indices@.len(),
        forall|j: int| 0 <= j < indices@.len() ==> r@[j] == alphabet@[indices@[j] as int],
{
    let mut out = String::new();
    let mut i: usize = 0;
    while i < indices.len()
        invariant
            i <= indices@.len(),
            out@.len() == i as int,
            forall|j: int| 0 <= j < indices@.len() ==> indices@[j] < alphabet@.len(),
            forall|j: int| 0 <= j < i as int ==> out@[j] == alphabet@[indices@[j] as int],
        decreases indices@.len() - i,
    {
        let c = alphabet[indices[i]];
        push_char(&mut out, c);
        i = i + 1;
    }
    out
}

/// Produce one string of exactly `request.length` characters, each drawn
/// independently and uniformly at random from `request.alphabet`.
///
/// Fails if and only if the alphabet is empty; a length of zero is no error
/// and yields the empty string.
pub fn generate(request: &GenerationRequest) -> (r: Result<String, GenerationError>)
    ensures
        r is Ok <==> request.has_valid_alphabet(),
        !request.has_valid_alphabet() ==> r == Err::<String, GenerationError>(
            GenerationError::InvalidAlphabet,
        ),
        r is Ok ==> r->Ok_0@.len() == request.length,
        r is Ok ==> drawn_from(r->Ok_0@, request.alphabet@),
        r is Ok && request.length == 0 ==> r->Ok_0@ == Seq::<char>::empty(),
{
    if request.alphabet.len() == 0 {
        return Err(GenerationError::InvalidAlphabet);
    }
    let mut indices: Vec<usize> = Vec::new();
    let mut i: usize = 0;
    while i < request.length
        invariant
            i <= request.length,
            indices@.len() == i as int,
            forall|j: int| 0 <= j < i as int ==> indices@[j] < request.alphabet@.len(),
            request.alphabet@.len() > 0,
        decreases request.length - i,
    {
        let idx = random_index(request.alphabet.len());
        indices.push(idx);
        i = i + 1;
    }
    let out = string_from_indices(&request.alphabet, &indices);
    proof {
        assert forall|j: int| 0 <= j < out@.len() implies request.alphabet@.contains(out@[j]) by {
            assert(out@[j] == request.alphabet@[indices@[j] as int]);
        }
    }
    Ok(out)
}

/// The uppercase ASCII letters, in order: the alphabet of the classic
/// password exercise.
pub open spec fn uppercase_letters() -> Seq<char> {
    seq![
        'A', 'B', 'C', 'D', 'E', 'F', 'G', 'H', 'I', 'J', 'K', 'L', 'M', 'N', 'O', 'P', 'Q', 'R',
        'S', 'T', 'U', 'V', 'W', 'X', 'Y', 'Z',
    ]
}

/// The default alphabet, holding every uppercase ASCII letter.
pub fn uppercase_alphabet() -> (v: Vec<char>)
    ensures
        v@ == uppercase_letters(),
{
    let v: Vec<char> = vec![
        'A', 'B', 'C', 'D', 'E', 'F', 'G', 'H', 'I', 'J', 'K', 'L', 'M', 'N', 'O', 'P', 'Q', 'R',
        'S', 'T', 'U', 'V', 'W', 'X', 'Y', 'Z',
    ];
    proof {
        assert(v@ =~= uppercase_letters());
    }
    v
}

/// Produce a password of exactly `password_length` uppercase ASCII letters,
/// each drawn independently and uniformly at random.
pub fn generate_password(password_length: usize) -> (r: String)
    ensures
        r@.len() == password_length,
        drawn_from(r@, uppercase_letters()),
{
    let request = GenerationRequest { length: password_length, alphabet: uppercase_alphabet() };
    proof {
        assert(uppercase_letters().len() == 26);
    }
    match generate(&request) {
        Ok(password) => password,
        Err(_) => {
            // Unreachable: the uppercase alphabet is never empty.
            proof {
                assert(false);
            }
            String::new()
        },
    }
}

/// The request alone fixes the shape of the output, never its content: any
/// two strings generated for the same request have the same length, though
/// nothing forces their characters to agree.
pub proof fn lemma_output_shape_deterministic(
    request: GenerationRequest,
    first: Seq<char>,
    second: Seq<char>,
)
    requires
        first.len() == request.length,
        second.len() == request.length,
    ensures
        first.len() == second.len(),
{
}

} // verus!
