//! A generated secret held in a fixed-capacity buffer that is wiped on
//! release.

use rand::Rng;
use vstd::prelude::*;

use crate::text::{decimal, push_decimal, push_str, string_from_chars};

verus! {

/// Capacity of a password's buffer.
pub const PASSWORD_BUFFER_SIZE: usize = 1024;

/// What the live positions of a password's buffer hold once it is released.
pub const PASSWORD_FILL_CHARACTER: char = '0';

/// Why a password could not be drawn.
#[derive(Debug, PartialEq, Eq, Structural)]
pub enum PasswordError {
    /// The requested length exceeds the buffer's capacity.
    TooLongLength(usize),
}

impl PasswordError {
    /// The message that describes the error.
    pub open spec fn message(self) -> Seq<char> {
        match self {
            PasswordError::TooLongLength(n) => "max password length is "@ + decimal(
                PASSWORD_BUFFER_SIZE as nat,
            ) + ", but required length is "@ + decimal(n as nat),
        }
    }

    /// The message that describes the error.
    pub fn to_string(&self) -> (r: String)
        ensures
            r@ == self.message(),
    {
        let mut out: Vec<char> = Vec::new();
        match self {
            PasswordError::TooLongLength(n) => {
                push_str(&mut out, "max password length is ");
                push_decimal(&mut out, PASSWORD_BUFFER_SIZE);
                push_str(&mut out, ", but required length is ");
                push_decimal(&mut out, *n);
            },
        }
        string_from_chars(out.as_slice())
    }
}

/// `rand`'s handle to the thread-local generator, carried through opaquely.
#[verifier::external_type_specification]
#[verifier::external_body]
pub struct ExThreadRng(rand::rngs::ThreadRng);

/// Relies on `rand::thread_rng`: a handle to the thread's cryptographically
/// secure generator. Nothing is promised of the values it yields.
pub assume_specification[ rand::thread_rng ]() -> rand::rngs::ThreadRng;

/// Relies on `rand::Rng::gen_range`: a value drawn uniformly from the
/// half-open range `0..bound`, which must not be empty.
#[verifier::external_body]
fn random_index(rng: &mut rand::rngs::ThreadRng, bound: usize) -> (r: usize)
    requires
        bound > 0,
    ensures
        r < bound,
{
    rng.gen_range(0..bound)
}

/// A generated password. Its characters are the first `len` positions of
/// a fixed-size buffer; they are overwritten when the value is dropped.
pub struct Password {
    len: usize,
    password: [char; PASSWORD_BUFFER_SIZE],
}

impl View for Password {
    type V = Seq<char>;

    closed spec fn view(&self) -> Seq<char> {
        self.password@.subrange(0, self.len as int)
    }
}

impl Drop for Password {
    /// Overwrites the characters with the fill character before the memory
    /// is released; the rest of the buffer is left as it is.
    fn drop(&mut self)
        ensures
            final(self)@.len() == old(self)@.len(),
            forall|i: int|
                0 <= i < final(self)@.len() ==> #[trigger] final(self)@[i]
                    == PASSWORD_FILL_CHARACTER,
            final(self).storage().len() == old(self).storage().len(),
            forall|i: int|
                0 <= i < old(self)@.len() ==> #[trigger] final(self).storage()[i]
                    == PASSWORD_FILL_CHARACTER,
            forall|i: int|
                old(self)@.len() <= i < old(self).storage().len() ==> #[trigger] final(self).storage()[i]
                    == old(self).storage()[i],
        opens_invariants none
        no_unwind
    {
        self.wipe();
    }
}

impl Password {
    #[verifier::type_invariant]
    spec fn fits(self) -> bool {
        self.len <= PASSWORD_BUFFER_SIZE
    }

    /// The whole buffer: the characters in its first positions, then
    /// filler.
    pub closed spec fn storage(&self) -> Seq<char> {
        self.password@
    }

    /// The password whose `k`-th character is `chars[idx[k]]`, with the
    /// rest of the buffer holding the fill character.
    pub fn from_indices(chars: &[char], idx: &[usize]) -> (r: Result<Password, PasswordError>)
        requires
            forall|k: int| 0 <= k < idx@.len() ==> #[trigger] idx@[k] < chars@.len(),
        ensures
            r is Ok <==> idx@.len() <= PASSWORD_BUFFER_SIZE,
            r matches Ok(p) ==> {
                &&& p@.len() == idx@.len()
                &&& forall|k: int| 0 <= k < idx@.len() ==> #[trigger] p@[k] == chars@[idx@[k] as int]
                &&& p.storage().len() == PASSWORD_BUFFER_SIZE
                &&& forall|k: int|
                    idx@.len() <= k < PASSWORD_BUFFER_SIZE ==> #[trigger] p.storage()[k]
                        == PASSWORD_FILL_CHARACTER
            },
            r matches Err(e) ==> e == PasswordError::TooLongLength(idx@.len() as usize),
    {
        let len = idx.len();
        if len > PASSWORD_BUFFER_SIZE {
            return Err(PasswordError::TooLongLength(len));
        }
        let mut password = [PASSWORD_FILL_CHARACTER; PASSWORD_BUFFER_SIZE];
        let mut i: usize = 0;
        while i < len
            invariant
                len == idx@.len(),
                len <= PASSWORD_BUFFER_SIZE,
                i <= len,
                forall|k: int| 0 <= k < idx@.len() ==> #[trigger] idx@[k] < chars@.len(),
                password@.len() == PASSWORD_BUFFER_SIZE,
                forall|k: int| 0 <= k < i ==> #[trigger] password@[k] == chars@[idx@[k] as int],
                forall|k: int|
                    i <= k < PASSWORD_BUFFER_SIZE ==> #[trigger] password@[k]
                        == PASSWORD_FILL_CHARACTER,
            decreases len - i,
        {
            password[i] = chars[idx[i]];
            i += 1;
        }
        let p = Password { len, password };
        assert(forall|k: int| 0 <= k < len ==> p@[k] == password@[k]);
        Ok(p)
    }

    /// Draws `len` characters from `chars`, each independently and
    /// uniformly, with a cryptographically secure generator.
    pub fn generate(chars: &[char], len: usize) -> (r: Result<Password, PasswordError>)
        requires
            chars@.len() > 0,
        ensures
            r is Ok <==> len <= PASSWORD_BUFFER_SIZE,
            r matches Ok(p) ==> p@.len() == len && forall|i: int|
                0 <= i < len ==> chars@.contains(#[trigger] p@[i]),
            r matches Err(e) ==> e == PasswordError::TooLongLength(len),
    {
        if len > PASSWORD_BUFFER_SIZE {
            return Err(PasswordError::TooLongLength(len));
        }
        let mut rng = rand::thread_rng();
        let mut idx = [0usize; PASSWORD_BUFFER_SIZE];
        let mut i: usize = 0;
        while i < len
            invariant
                len <= PASSWORD_BUFFER_SIZE,
                i <= len,
                chars@.len() > 0,
                idx@.len() == PASSWORD_BUFFER_SIZE,
                forall|k: int| 0 <= k < i ==> #[trigger] idx@[k] < chars@.len(),
            decreases len - i,
        {
            idx[i] = random_index(&mut rng, chars.len());
            i += 1;
        }
        let all: &[usize] = idx.as_slice();
        let drawn: &[usize] = &all[0..len];
        let r = Password::from_indices(chars, drawn);
        proof {
            if r is Ok {
                let p = r->Ok_0;
                assert forall|k: int| 0 <= k < len implies chars@.contains(#[trigger] p@[k]) by {
                    assert(drawn@[k] == idx@[k]);
                    assert(p@[k] == chars@[drawn@[k] as int]);
                }
            }
        }
        // The indices tell the characters: clear them too.
        let mut i: usize = 0;
        while i < len
            invariant
                len <= PASSWORD_BUFFER_SIZE,
                i <= len,
                idx@.len() == PASSWORD_BUFFER_SIZE,
            decreases len - i,
        {
            idx[i] = 0;
            i += 1;
        }
        r
    }

    /// The number of characters.
    pub fn len(&self) -> (r: usize)
        ensures
            r == self@.len(),
            r <= PASSWORD_BUFFER_SIZE,
    {
        proof {
            use_type_invariant(self);
        }
        self.len
    }

    /// The characters, as plain text.
    pub fn to_string(&self) -> (r: String)
        ensures
            r@ == self@,
    {
        string_from_chars(self.chars())
    }

    /// A fixed mask that tells nothing of the characters or their number.
    pub fn masked(&self) -> (r: String)
        ensures
            r@ == seq!['*', '*', '*', '*', '*', '*', '*', '*'],
    {
        proof {
            reveal_strlit("********");
        }
        let r = "********".to_owned();
        assert(r@ =~= seq!['*', '*', '*', '*', '*', '*', '*', '*']);
        r
    }

    /// The characters.
    pub fn chars(&self) -> (r: &[char])
        ensures
            r@ == self@,
    {
        proof {
            use_type_invariant(self);
        }
        let all: &[char] = self.password.as_slice();
        &all[0..self.len]
    }

    /// An iterator over the characters.
    pub fn iter(&self) -> (r: std::slice::Iter<'_, char>)
        ensures
            vstd::std_specs::slice::into_iter_elts(r) == self@,
    {
        self.chars().iter()
    }

    /// Overwrites every character with the fill character; the rest of
    /// the buffer is left as it is.
    pub fn wipe(&mut self)
        ensures
            final(self)@.len() == old(self)@.len(),
            forall|i: int|
                0 <= i < final(self)@.len() ==> #[trigger] final(self)@[i]
                    == PASSWORD_FILL_CHARACTER,
            final(self).storage().len() == old(self).storage().len(),
            forall|i: int|
                0 <= i < old(self)@.len() ==> #[trigger] final(self).storage()[i]
                    == PASSWORD_FILL_CHARACTER,
            forall|i: int|
                old(self)@.len() <= i < old(self).storage().len() ==> #[trigger] final(self).storage()[i]
                    == old(self).storage()[i],
        opens_invariants none
        no_unwind
    {
        proof {
            use_type_invariant(&*self);
        }
        let mut i: usize = 0;
        while i < self.len
            invariant
                self.len <= PASSWORD_BUFFER_SIZE,
                self.len == old(self).len,
                i <= self.len,
                self.password@.len() == old(self).password@.len(),
                forall|k: int| 0 <= k < i ==> self.password@[k] == PASSWORD_FILL_CHARACTER,
                forall|k: int|
                    i <= k < self.password@.len() ==> #[trigger] self.password@[k]
                        == old(self).password@[k],
            decreases self.len - i,
        {
            self.password[i] = PASSWORD_FILL_CHARACTER;
            i += 1;
        }
    }
}

} // verus!
