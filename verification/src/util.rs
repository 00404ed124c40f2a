use vstd::prelude::*;

verus! {

// The game talks in a CP437-compatible code page: each byte names one of 256
// fixed characters.  Codes 32 through 126 coincide with printable ASCII; the
// remaining 161 codes carry the box-drawing, dingbat and accented characters
// listed here.

/// The character assigned to a code outside the printable ASCII range.
pub open spec fn cp437_special_char(b: u8) -> char {
    if b == 0 { '\u{0}'
    } else if b == 1 { '☺'
    } else if b == 2 { '☻'
    } else if b == 3 { '♥'
    } else if b == 4 { '♦'
    } else if b == 5 { '♣'
    } else if b == 6 { '♠'
    } else if b == 7 { '•'
    } else if b == 8 { '◘'
    } else if b == 9 { '○'
    } else if b == 10 { '\n'
    } else if b == 11 { '♂'
    } else if b == 12 { '♀'
    } else if b == 13 { '♪'
    } else if b == 14 { '♫'
    } else if b == 15 { '☼'
    } else if b == 16 { '►'
    } else if b == 17 { '◄'
    } else if b == 18 { '↕'
    } else if b == 19 { '‼'
    } else if b == 20 { '¶'
    } else if b == 21 { '§'
    } else if b == 22 { '▬'
    } else if b == 23 { '↨'
    } else if b == 24 { '↑'
    } else if b == 25 { '↓'
    } else if b == 26 { '→'
    } else if b == 27 { '←'
    } else if b == 28 { '∟'
    } else if b == 29 { '↔'
    } else if b == 30 { '▲'
    } else if b == 31 { '▼'
    } else if b == 127 { '⌂'
    } else if b == 128 { 'Ç'
    } else if b == 129 { 'ü'
    } else if b == 130 { 'é'
    } else if b == 131 { 'â'
    } else if b == 132 { 'ä'
    } else if b == 133 { 'à'
    } else if b == 134 { 'å'
    } else if b == 135 { 'ç'
    } else if b == 136 { 'ê'
    } else if b == 137 { 'ë'
    } else if b == 138 { 'è'
    } else if b == 139 { 'ï'
    } else if b == 140 { 'î'
    } else if b == 141 { 'ì'
    } else if b == 142 { 'Ä'
    } else if b == 143 { 'Å'
    } else if b == 144 { 'É'
    } else if b == 145 { 'æ'
    } else if b == 146 { 'Æ'
    } else if b == 147 { 'ô'
    } else if b == 148 { 'ö'
    } else if b == 149 { 'ò'
    } else if b == 150 { 'û'
    } else if b == 151 { 'ù'
    } else if b == 152 { 'ÿ'
    } else if b == 153 { 'Ö'
    } else if b == 154 { 'Ü'
    } else if b == 155 { '¢'
    } else if b == 156 { '£'
    } else if b == 157 { '¥'
    } else if b == 158 { '₧'
    } else if b == 159 { 'ƒ'
    } else if b == 160 { 'á'
    } else if b == 161 { 'í'
    } else if b == 162 { 'ó'
    } else if b == 163 { 'ú'
    } else if b == 164 { 'ñ'
    } else if b == 165 { 'Ñ'
    } else if b == 166 { 'ª'
    } else if b == 167 { 'º'
    } else if b == 168 { '¿'
    } else if b == 169 { '⌐'
    } else if b == 170 { '¬'
    } else if b == 171 { '½'
    } else if b == 172 { '¼'
    } else if b == 173 { '¡'
    } else if b == 174 { '«'
    } else if b == 175 { '»'
    } else if b == 176 { '░'
    } else if b == 177 { '▒'
    } else if b == 178 { '▓'
    } else if b == 179 { '│'
    } else if b == 180 { '┤'
    } else if b == 181 { '╡'
    } else if b == 182 { '╢'
    } else if b == 183 { '╖'
    } else if b == 184 { '╕'
    } else if b == 185 { '╣'
    } else if b == 186 { '║'
    } else if b == 187 { '╗'
    } else if b == 188 { '╝'
    } else if b == 189 { '╜'
    } else if b == 190 { '╛'
    } else if b == 191 { '┐'
    } else if b == 192 { '└'
    } else if b == 193 { '┴'
    } else if b == 194 { '┬'
    } else if b == 195 { '├'
    } else if b == 196 { '─'
    } else if b == 197 { '┼'
    } else if b == 198 { '╞'
    } else if b == 199 { '╟'
    } else if b == 200 { '╚'
    } else if b == 201 { '╔'
    } else if b == 202 { '╩'
    } else if b == 203 { '╦'
    } else if b == 204 { '╠'
    } else if b == 205 { '═'
    } else if b == 206 { '╬'
    } else if b == 207 { '╧'
    } else if b == 208 { '╨'
    } else if b == 209 { '╤'
    } else if b == 210 { '╥'
    } else if b == 211 { '╙'
    } else if b == 212 { '╘'
    } else if b == 213 { '╒'
    } else if b == 214 { '╓'
    } else if b == 215 { '╫'
    } else if b == 216 { '╪'
    } else if b == 217 { '┘'
    } else if b == 218 { '┌'
    } else if b == 219 { '█'
    } else if b == 220 { '▄'
    } else if b == 221 { '▌'
    } else if b == 222 { '▐'
    } else if b == 223 { '▀'
    } else if b == 224 { 'α'
    } else if b == 225 { 'ß'
    } else if b == 226 { 'Γ'
    } else if b == 227 { 'π'
    } else if b == 228 { 'Σ'
    } else if b == 229 { 'σ'
    } else if b == 230 { 'µ'
    } else if b == 231 { 'τ'
    } else if b == 232 { 'Φ'
    } else if b == 233 { 'Θ'
    } else if b == 234 { 'Ω'
    } else if b == 235 { 'δ'
    } else if b == 236 { '∞'
    } else if b == 237 { 'φ'
    } else if b == 238 { 'ε'
    } else if b == 239 { '∩'
    } else if b == 240 { '≡'
    } else if b == 241 { '±'
    } else if b == 242 { '≥'
    } else if b == 243 { '≤'
    } else if b == 244 { '⌠'
    } else if b == 245 { '⌡'
    } else if b == 246 { '÷'
    } else if b == 247 { '≈'
    } else if b == 248 { '°'
    } else if b == 249 { '∙'
    } else if b == 250 { '·'
    } else if b == 251 { '√'
    } else if b == 252 { 'ⁿ'
    } else if b == 253 { '²'
    } else if b == 254 { '■'
    } else { '©'
    }
}

/// The character that the code page assigns to each byte.
pub open spec fn cp437_char_of(b: u8) -> char {
    if 32 <= b && b <= 126 {
        b as char
    } else {
        cp437_special_char(b)
    }
}

/// Whether some code of the page shows this character.
pub open spec fn cp437_encodable(c: char) -> bool {
    exists|b: u8| cp437_char_of(b) == c
}

/// Decodes one byte of the code page.
pub fn cp437_to_char(b: u8) -> (c: char)
    ensures
        c == cp437_char_of(b),
{
    if 32 <= b && b <= 126 {
        b as char
    } else {
        if b == 0 { '\u{0}'
        } else if b == 1 { '☺'
        } else if b == 2 { '☻'
        } else if b == 3 { '♥'
        } else if b == 4 { '♦'
        } else if b == 5 { '♣'
        } else if b == 6 { '♠'
        } else if b == 7 { '•'
        } else if b == 8 { '◘'
        } else if b == 9 { '○'
        } else if b == 10 { '\n'
        } else if b == 11 { '♂'
        } else if b == 12 { '♀'
        } else if b == 13 { '♪'
        } else if b == 14 { '♫'
        } else if b == 15 { '☼'
        } else if b == 16 { '►'
        } else if b == 17 { '◄'
        } else if b == 18 { '↕'
        } else if b == 19 { '‼'
        } else if b == 20 { '¶'
        } else if b == 21 { '§'
        } else if b == 22 { '▬'
        } else if b == 23 { '↨'
        } else if b == 24 { '↑'
        } else if b == 25 { '↓'
        } else if b == 26 { '→'
        } else if b == 27 { '←'
        } else if b == 28 { '∟'
        } else if b == 29 { '↔'
        } else if b == 30 { '▲'
        } else if b == 31 { '▼'
        } else if b == 127 { '⌂'
        } else if b == 128 { 'Ç'
        } else if b == 129 { 'ü'
        } else if b == 130 { 'é'
        } else if b == 131 { 'â'
        } else if b == 132 { 'ä'
        } else if b == 133 { 'à'
        } else if b == 134 { 'å'
        } else if b == 135 { 'ç'
        } else if b == 136 { 'ê'
        } else if b == 137 { 'ë'
        } else if b == 138 { 'è'
        } else if b == 139 { 'ï'
        } else if b == 140 { 'î'
        } else if b == 141 { 'ì'
        } else if b == 142 { 'Ä'
        } else if b == 143 { 'Å'
        } else if b == 144 { 'É'
        } else if b == 145 { 'æ'
        } else if b == 146 { 'Æ'
        } else if b == 147 { 'ô'
        } else if b == 148 { 'ö'
        } else if b == 149 { 'ò'
        } else if b == 150 { 'û'
        } else if b == 151 { 'ù'
        } else if b == 152 { 'ÿ'
        } else if b == 153 { 'Ö'
        } else if b == 154 { 'Ü'
        } else if b == 155 { '¢'
        } else if b == 156 { '£'
        } else if b == 157 { '¥'
        } else if b == 158 { '₧'
        } else if b == 159 { 'ƒ'
        } else if b == 160 { 'á'
        } else if b == 161 { 'í'
        } else if b == 162 { 'ó'
        } else if b == 163 { 'ú'
        } else if b == 164 { 'ñ'
        } else if b == 165 { 'Ñ'
        } else if b == 166 { 'ª'
        } else if b == 167 { 'º'
        } else if b == 168 { '¿'
        } else if b == 169 { '⌐'
        } else if b == 170 { '¬'
        } else if b == 171 { '½'
        } else if b == 172 { '¼'
        } else if b == 173 { '¡'
        } else if b == 174 { '«'
        } else if b == 175 { '»'
        } else if b == 176 { '░'
        } else if b == 177 { '▒'
        } else if b == 178 { '▓'
        } else if b == 179 { '│'
        } else if b == 180 { '┤'
        } else if b == 181 { '╡'
        } else if b == 182 { '╢'
        } else if b == 183 { '╖'
        } else if b == 184 { '╕'
        } else if b == 185 { '╣'
        } else if b == 186 { '║'
        } else if b == 187 { '╗'
        } else if b == 188 { '╝'
        } else if b == 189 { '╜'
        } else if b == 190 { '╛'
        } else if b == 191 { '┐'
        } else if b == 192 { '└'
        } else if b == 193 { '┴'
        } else if b == 194 { '┬'
        } else if b == 195 { '├'
        } else if b == 196 { '─'
        } else if b == 197 { '┼'
        } else if b == 198 { '╞'
        } else if b == 199 { '╟'
        } else if b == 200 { '╚'
        } else if b == 201 { '╔'
        } else if b == 202 { '╩'
        } else if b == 203 { '╦'
        } else if b == 204 { '╠'
        } else if b == 205 { '═'
        } else if b == 206 { '╬'
        } else if b == 207 { '╧'
        } else if b == 208 { '╨'
        } else if b == 209 { '╤'
        } else if b == 210 { '╥'
        } else if b == 211 { '╙'
        } else if b == 212 { '╘'
        } else if b == 213 { '╒'
        } else if b == 214 { '╓'
        } else if b == 215 { '╫'
        } else if b == 216 { '╪'
        } else if b == 217 { '┘'
        } else if b == 218 { '┌'
        } else if b == 219 { '█'
        } else if b == 220 { '▄'
        } else if b == 221 { '▌'
        } else if b == 222 { '▐'
        } else if b == 223 { '▀'
        } else if b == 224 { 'α'
        } else if b == 225 { 'ß'
        } else if b == 226 { 'Γ'
        } else if b == 227 { 'π'
        } else if b == 228 { 'Σ'
        } else if b == 229 { 'σ'
        } else if b == 230 { 'µ'
        } else if b == 231 { 'τ'
        } else if b == 232 { 'Φ'
        } else if b == 233 { 'Θ'
        } else if b == 234 { 'Ω'
        } else if b == 235 { 'δ'
        } else if b == 236 { '∞'
        } else if b == 237 { 'φ'
        } else if b == 238 { 'ε'
        } else if b == 239 { '∩'
        } else if b == 240 { '≡'
        } else if b == 241 { '±'
        } else if b == 242 { '≥'
        } else if b == 243 { '≤'
        } else if b == 244 { '⌠'
        } else if b == 245 { '⌡'
        } else if b == 246 { '÷'
        } else if b == 247 { '≈'
        } else if b == 248 { '°'
        } else if b == 249 { '∙'
        } else if b == 250 { '·'
        } else if b == 251 { '√'
        } else if b == 252 { 'ⁿ'
        } else if b == 253 { '²'
        } else if b == 254 { '■'
        } else { '©'
        }
    }
}

/// Finds the code that shows the given character, if there is one.
pub fn char_to_cp437(c: char) -> (r: Option<u8>)
    ensures
        match r {
            Some(b) => cp437_char_of(b) == c,
            None => !cp437_encodable(c),
        },
{
    let mut i: usize = 0;
    while i < 256
        invariant
            i <= 256,
            forall|j: int| 0 <= j < i ==> #[trigger] cp437_char_of(j as u8) != c,
        decreases 256 - i,
    {
        let b = i as u8;
        if cp437_to_char(b) == c {
            return Some(b);
        }
        i += 1;
    }
    proof {
        if cp437_encodable(c) {
            let b = choose|b: u8| cp437_char_of(b) == c;
            assert(cp437_char_of((b as int) as u8) == c);
        }
    }
    None
}

/// Relies on std's `String::push`: appends exactly the given character.
pub assume_specification[ String::push ](s: &mut String, c: char)
    ensures
        final(s)@ == old(s)@.push(c),
;

/// A string of bytes in the game's code page.
#[derive(Debug, Clone, Default, PartialEq, Eq, PartialOrd, Ord, Hash)]
pub struct Cp437String(pub Vec<u8>);

impl Cp437String {
    /// Encodes a UTF-8 string into the code page, or returns `None` if some
    /// character has no code.
    pub fn from_utf8(s: &str) -> (r: Option<Cp437String>)
        ensures
            match r {
                Some(cs) => cs.0@.len() == s@.len() && forall|j: int|
                    0 <= j < s@.len() ==> #[trigger] cp437_char_of(cs.0@[j]) == s@[j],
                None => exists|j: int| 0 <= j < s@.len() && !cp437_encodable(s@[j]),
            },
    {
        let n = s.unicode_len();
        let mut out: Vec<u8> = Vec::new();
        let mut i: usize = 0;
        while i < n
            invariant
                n == s@.len(),
                i <= n,
                out@.len() == i,
                forall|j: int| 0 <= j < i ==> #[trigger] cp437_char_of(out@[j]) == s@[j],
            decreases n - i,
        {
            let c = s.get_char(i);
            match char_to_cp437(c) {
                Some(b) => {
                    out.push(b);
                },
                None => {
                    return None;
                },
            }
            i += 1;
        }
        Some(Cp437String(out))
    }

    /// Encodes a UTF-8 string into the code page; characters without a code
    /// become the question mark, code 63.
    pub fn from_utf8_lossy(s: &str) -> (r: Cp437String)
        ensures
            r.0@.len() == s@.len(),
            forall|j: int| 0 <= j < s@.len() ==> if cp437_encodable(s@[j]) {
                cp437_char_of(#[trigger] r.0@[j]) == s@[j]
            } else {
                r.0@[j] == 63
            },
    {
        let n = s.unicode_len();
        let mut out: Vec<u8> = Vec::new();
        let mut i: usize = 0;
        while i < n
            invariant
                n == s@.len(),
                i <= n,
                out@.len() == i,
                forall|j: int| 0 <= j < i ==> if cp437_encodable(s@[j]) {
                    cp437_char_of(#[trigger] out@[j]) == s@[j]
                } else {
                    out@[j] == 63
                },
            decreases n - i,
        {
            let c = s.get_char(i);
            match char_to_cp437(c) {
                Some(b) => {
                    out.push(b);
                },
                None => {
                    out.push(63);
                },
            }
            i += 1;
        }
        Cp437String(out)
    }

    /// Hands the raw code-page bytes out.
    pub fn into_inner(self) -> (r: Vec<u8>)
        ensures
            r@ == self.0@,
    {
        self.0
    }

    /// Decodes the bytes back into the characters their codes show.
    pub fn to_string(&self) -> (r: String)
        ensures
            r@.len() == self.0@.len(),
            forall|j: int| 0 <= j < self.0@.len() ==> #[trigger] r@[j] == cp437_char_of(self.0@[j]),
    {
        let mut out = String::new();
        let mut i: usize = 0;
        while i < self.0.len()
            invariant
                i <= self.0@.len(),
                out@.len() == i,
                forall|j: int| 0 <= j < i ==> #[trigger] out@[j] == cp437_char_of(self.0@[j]),
            decreases self.0@.len() - i,
        {
            let c = cp437_to_char(self.0[i]);
            out.push(c);
            i += 1;
        }
        out
    }
}

// MARK: Decimal literals

/// Whether every byte is a decimal digit (and there is at least one).
pub open spec fn is_digits(s: Seq<u8>) -> bool {
    s.len() > 0 && forall|i: int| 0 <= i < s.len() ==> 48 <= #[trigger] s[i] <= 57
}

/// The value of a digit string, most significant digit first.
pub open spec fn digits_value(s: Seq<u8>) -> nat
    decreases s.len(),
{
    if s.len() == 0 {
        0
    } else {
        digits_value(s.drop_last()) * 10 + ((s.last() - 48) as nat)
    }
}

/// Whether the bytes form a decimal integer literal: digits, with one
/// optional leading minus sign.
pub open spec fn is_int_literal(s: Seq<u8>) -> bool {
    if s.len() > 0 && s[0] == 45 {
        is_digits(s.skip(1))
    } else {
        is_digits(s)
    }
}

/// The value of a decimal integer literal.
pub open spec fn int_literal_value(s: Seq<u8>) -> int {
    if s.len() > 0 && s[0] == 45 {
        -(digits_value(s.skip(1)) as int)
    } else {
        digits_value(s) as int
    }
}

/// Ten to the given power.
pub open spec fn pow10(n: nat) -> nat
    decreases n,
{
    if n == 0 {
        1
    } else {
        10 * pow10((n - 1) as nat)
    }
}

proof fn lemma_digits_value_bound(s: Seq<u8>)
    requires
        forall|i: int| 0 <= i < s.len() ==> 48 <= #[trigger] s[i] <= 57,
    ensures
        digits_value(s) < pow10(s.len()),
    decreases s.len(),
{
    if s.len() > 0 {
        assert forall|i: int| 0 <= i < s.drop_last().len() implies 48 <= #[trigger] s.drop_last()[i]
            <= 57 by {
            assert(s.drop_last()[i] == s[i]);
        }
        lemma_digits_value_bound(s.drop_last());
    }
}

proof fn lemma_digits_value_lower(s: Seq<u8>)
    requires
        s.len() > 0,
        s[0] >= 49,
        forall|i: int| 0 <= i < s.len() ==> 48 <= #[trigger] s[i] <= 57,
    ensures
        digits_value(s) >= pow10((s.len() - 1) as nat),
    decreases s.len(),
{
    if s.len() > 1 {
        assert forall|i: int| 0 <= i < s.drop_last().len() implies 48 <= #[trigger] s.drop_last()[i]
            <= 57 by {
            assert(s.drop_last()[i] == s[i]);
        }
        lemma_digits_value_lower(s.drop_last());
    }
}

proof fn lemma_digits_strip_zero(s: Seq<u8>)
    requires
        s.len() > 0,
        s[0] == 48,
    ensures
        digits_value(s.skip(1)) == digits_value(s),
    decreases s.len(),
{
    if s.len() == 1 {
        assert(s.skip(1) =~= Seq::<u8>::empty());
        assert(s.drop_last() =~= Seq::<u8>::empty());
    } else {
        lemma_digits_strip_zero(s.drop_last());
        assert(s.skip(1).drop_last() =~= s.drop_last().skip(1));
        assert(s.skip(1).last() == s.last());
    }
}

pub proof fn lemma_digits_value_step(t: Seq<u8>, b: u8)
    ensures
        digits_value(t.push(b)) == digits_value(t) * 10 + ((b - 48) as nat),
{
    assert(t.push(b).drop_last() =~= t);
    assert(t.push(b).last() == b);
}

/// Parses the digit bytes of `s` from `from` on, all of which must already
/// be known to be digits with no leading zero and at most 19 of them.
fn parse_digits_core(s: &[u8], from: usize) -> (r: u64)
    requires
        from <= s@.len(),
        forall|i: int| from <= i < s@.len() ==> 48 <= #[trigger] s@[i] <= 57,
        s@.len() - from <= 19,
        from < s@.len() ==> s@[from as int] != 48 || s@.len() - from == 1,
    ensures
        r as nat == digits_value(s@.skip(from as int)),
{
    let ghost digits = s@.skip(from as int);
    proof {
        assert forall|i: int| 0 <= i < digits.len() implies 48 <= #[trigger] digits[i] <= 57 by {
            assert(digits[i] == s@[i + from]);
        }
        lemma_digits_value_bound(digits);
        lemma_pow10_le(digits.len(), 19);
    }
    let mut acc: u64 = 0;
    let mut i: usize = from;
    while i < s.len()
        invariant
            from <= i <= s@.len(),
            digits == s@.skip(from as int),
            s@.len() - from <= 19,
            forall|j: int| from <= j < s@.len() ==> 48 <= #[trigger] s@[j] <= 57,
            acc as nat == digits_value(s@.subrange(from as int, i as int)),
            (acc as nat) < pow10((i - from) as nat),
        decreases s@.len() - i,
    {
        let b = s[i];
        proof {
            let prefix = s@.subrange(from as int, i as int);
            lemma_digits_value_step(prefix, b);
            assert(s@.subrange(from as int, i + 1 as int) =~= prefix.push(b));
            lemma_pow10_le((i - from + 1) as nat, 19nat);
            assert((acc as nat) * 10 + ((b - 48) as nat) < pow10((i - from + 1) as nat));
        }
        acc = acc * 10 + ((b - 48) as u64);
        i += 1;
    }
    proof {
        assert(s@.subrange(from as int, s@.len() as int) =~= digits);
    }
    acc
}

proof fn lemma_pow10_le(a: nat, b: nat)
    requires
        a <= b,
    ensures
        pow10(a) <= pow10(b),
        pow10(19) == 10000000000000000000,
    decreases b,
{
    assert(pow10(19) == 10000000000000000000) by {
        reveal_with_fuel(pow10, 20);
    }
    if a < b {
        lemma_pow10_le(a, (b - 1) as nat);
    }
}

/// Parses a decimal integer literal — digits with an optional leading
/// minus — returning its value exactly when the bytes are such a literal
/// and the value fits in an `i64`.
pub fn parse_i64_bytes(s: &[u8]) -> (r: Option<i64>)
    ensures
        match r {
            Some(v) => {
                &&& is_int_literal(s@)
                &&& i64::MIN <= int_literal_value(s@) <= i64::MAX
                &&& v as int == int_literal_value(s@)
            },
            None => !is_int_literal(s@) || int_literal_value(s@) < i64::MIN || int_literal_value(
                s@,
            ) > i64::MAX,
        },
{
    let negative = s.len() > 0 && s[0] == 45;
    let start: usize = if negative {
        1
    } else {
        0
    };
    let ghost digits = s@.skip(start as int);
    proof {
        if !negative {
            assert(digits =~= s@);
        }
    }
    if s.len() == start {
        return None;
    }
    let mut i: usize = start;
    while i < s.len()
        invariant
            start <= i <= s@.len(),
            negative <==> s@.len() > 0 && s@[0] == 45,
            start == if negative { 1int } else { 0int },
            digits == s@.skip(start as int),
            forall|j: int| start <= j < i ==> 48 <= #[trigger] s@[j] <= 57,
        decreases s@.len() - i,
    {
        let b = s[i];
        if b < 48 || b > 57 {
            proof {
                assert(digits[i - start] == s@[i as int]);
                assert(!is_digits(digits));
            }
            return None;
        }
        i += 1;
    }
    proof {
        assert forall|j: int| 0 <= j < digits.len() implies 48 <= #[trigger] digits[j] <= 57 by {
            assert(digits[j] == s@[j + start]);
        }
        assert(is_digits(digits));
        assert(is_int_literal(s@));
    }
    // strip leading zeros, keeping at least one digit
    let mut z: usize = start;
    while z < s.len() - 1 && s[z] == 48
        invariant
            start <= z <= s@.len() - 1,
            forall|j: int| start <= j < z ==> s@[j] == 48,
        decreases s@.len() - z,
    {
        z += 1;
    }
    proof {
        lemma_strip_zeros(s@, start as int, z as int);
        assert forall|j: int| z <= j < s@.len() implies 48 <= #[trigger] s@[j] <= 57 by {
            assert(digits[j - start] == s@[j]);
        }
    }
    if s.len() - z > 19 {
        proof {
            let stripped = s@.skip(z as int);
            assert(stripped[0] == s@[z as int]);
            assert forall|j: int| 0 <= j < stripped.len() implies 48 <= #[trigger] stripped[j]
                <= 57 by {
                assert(stripped[j] == s@[j + z]);
            }
            lemma_digits_value_lower(stripped);
            lemma_pow10_le(19, (stripped.len() - 1) as nat);
        }
        return None;
    }
    let magnitude = parse_digits_core(s, z);
    proof {
        assert(magnitude as nat == digits_value(s@.skip(z as int)));
        assert(digits_value(s@.skip(z as int)) == digits_value(digits));
    }
    if negative {
        if magnitude > 9223372036854775808u64 {
            return None;
        }
        if magnitude == 9223372036854775808u64 {
            return Some(i64::MIN);
        }
        Some(-(magnitude as i64))
    } else {
        if magnitude > 9223372036854775807u64 {
            return None;
        }
        Some(magnitude as i64)
    }
}

proof fn lemma_strip_zeros(s: Seq<u8>, start: int, z: int)
    requires
        0 <= start <= z < s.len(),
        forall|j: int| start <= j < z ==> s[j] == 48,
    ensures
        digits_value(s.skip(z)) == digits_value(s.skip(start)),
    decreases z - start,
{
    if z > start {
        lemma_digits_strip_zero(s.skip(start));
        assert(s.skip(start).skip(1) =~= s.skip(start + 1));
        lemma_strip_zeros(s, start + 1, z);
    }
}

/// Parses a decimal literal that must fit in an `i32`.
pub fn parse_i32_bytes(s: &[u8]) -> (r: Option<i32>)
    ensures
        match r {
            Some(v) => {
                &&& is_int_literal(s@)
                &&& i32::MIN <= int_literal_value(s@) <= i32::MAX
                &&& v as int == int_literal_value(s@)
            },
            None => !is_int_literal(s@) || int_literal_value(s@) < i32::MIN || int_literal_value(
                s@,
            ) > i32::MAX,
        },
{
    match parse_i64_bytes(s) {
        Some(v) => {
            if v < -2147483648i64 || v > 2147483647i64 {
                None
            } else {
                Some(v as i32)
            }
        },
        None => None,
    }
}

/// Parses a decimal literal that must fit in an `i16`.
pub fn parse_i16_bytes(s: &[u8]) -> (r: Option<i16>)
    ensures
        match r {
            Some(v) => {
                &&& is_int_literal(s@)
                &&& i16::MIN <= int_literal_value(s@) <= i16::MAX
                &&& v as int == int_literal_value(s@)
            },
            None => !is_int_literal(s@) || int_literal_value(s@) < i16::MIN || int_literal_value(
                s@,
            ) > i16::MAX,
        },
{
    match parse_i64_bytes(s) {
        Some(v) => {
            if v < -32768i64 || v > 32767i64 {
                None
            } else {
                Some(v as i16)
            }
        },
        None => None,
    }
}

/// Parses a decimal literal that must fit in a `u8`.
pub fn parse_u8_bytes(s: &[u8]) -> (r: Option<u8>)
    ensures
        match r {
            Some(v) => {
                &&& is_int_literal(s@)
                &&& 0 <= int_literal_value(s@) <= u8::MAX
                &&& v as int == int_literal_value(s@)
            },
            None => !is_int_literal(s@) || int_literal_value(s@) < 0 || int_literal_value(s@)
                > u8::MAX,
        },
{
    match parse_i64_bytes(s) {
        Some(v) => {
            if v < 0i64 || v > 255i64 {
                None
            } else {
                Some(v as u8)
            }
        },
        None => None,
    }
}

// MARK: Splitting on a separator

/// The index of the first occurrence of `sep` in `s`, or `s.len()`.
pub open spec fn first_byte(s: Seq<u8>, sep: u8) -> nat
    decreases s.len(),
{
    if s.len() == 0 {
        0
    } else if s[0] == sep {
        0
    } else {
        1 + first_byte(s.drop_first(), sep)
    }
}

pub proof fn lemma_first_byte(s: Seq<u8>, sep: u8)
    ensures
        first_byte(s, sep) <= s.len(),
        forall|j: int| 0 <= j < first_byte(s, sep) ==> s[j] != sep,
        first_byte(s, sep) < s.len() ==> s[first_byte(s, sep) as int] == sep,
    decreases s.len(),
{
    if s.len() == 0 {
    } else if s[0] == sep {
    } else {
        lemma_first_byte(s.drop_first(), sep);
        assert forall|j: int| 0 <= j < first_byte(s, sep) implies s[j] != sep by {
            if j > 0 {
                assert(s.drop_first()[j - 1] == s[j]);
            }
        }
        if first_byte(s, sep) < s.len() {
            assert(s.drop_first()[first_byte(s.drop_first(), sep) as int] == s[first_byte(
                s,
                sep,
            ) as int]);
        }
    }
}

pub proof fn lemma_first_byte_is(s: Seq<u8>, sep: u8, i: int)
    requires
        0 <= i < s.len(),
        s[i] == sep,
        forall|j: int| 0 <= j < i ==> s[j] != sep,
    ensures
        first_byte(s, sep) == i,
{
    lemma_first_byte(s, sep);
}

/// The pieces of `s` between occurrences of `sep`, in order: n separators
/// give n + 1 pieces, and empty pieces are kept.
pub open spec fn split_bytes(s: Seq<u8>, sep: u8) -> Seq<Seq<u8>>
    decreases s.len(),
{
    let i = first_byte(s, sep);
    if i >= s.len() {
        seq![s]
    } else {
        seq![s.take(i as int)] + split_bytes(s.skip(i + 1 as int), sep)
    }
}

/// Splits `s` at every occurrence of `sep`.
pub fn split_bytes_exec(s: &[u8], sep: u8) -> (r: Vec<Vec<u8>>)
    ensures
        r@.map_values(|p: Vec<u8>| p@) == split_bytes(s@, sep),
{
    let mut out: Vec<Vec<u8>> = Vec::new();
    let mut piece: Vec<u8> = Vec::new();
    let mut i: usize = 0;
    proof {
        assert(piece@ + s@.skip(0) =~= s@);
        assert(out@.map_values(|p: Vec<u8>| p@) + split_bytes(piece@ + s@.skip(0), sep)
            =~= split_bytes(s@, sep));
    }
    while i < s.len()
        invariant
            i <= s@.len(),
            forall|j: int| 0 <= j < piece@.len() ==> piece@[j] != sep,
            split_bytes(s@, sep) == out@.map_values(|p: Vec<u8>| p@) + split_bytes(
                piece@ + s@.skip(i as int),
                sep,
            ),
        decreases s@.len() - i,
    {
        let b = s[i];
        let ghost rest = piece@ + s@.skip(i as int);
        if b == sep {
            proof {
                assert(rest[piece@.len() as int] == sep);
                assert forall|j: int| 0 <= j < piece@.len() implies rest[j] != sep by {
                    assert(rest[j] == piece@[j]);
                }
                lemma_first_byte_is(rest, sep, piece@.len() as int);
                assert(rest.take(piece@.len() as int) =~= piece@);
                assert(rest.skip(piece@.len() + 1 as int) =~= s@.skip(i + 1));
            }
            let finished = piece;
            piece = Vec::new();
            out.push(finished);
            proof {
                assert(out@.map_values(|p: Vec<u8>| p@) =~= out@.drop_last().map_values(
                    |p: Vec<u8>| p@,
                ).push(finished@));
                assert(piece@ + s@.skip(i + 1) =~= s@.skip(i + 1));
                assert(split_bytes(s@, sep) == out@.map_values(|p: Vec<u8>| p@) + split_bytes(
                    piece@ + s@.skip(i + 1),
                    sep,
                ));
            }
        } else {
            piece.push(b);
            proof {
                assert(piece@ + s@.skip(i + 1) =~= rest);
            }
        }
        i += 1;
    }
    proof {
        assert(piece@ + s@.skip(i as int) =~= piece@);
        lemma_first_byte(piece@, sep);
        assert(split_bytes(piece@, sep) =~= seq![piece@]);
    }
    out.push(piece);
    proof {
        assert(out@.map_values(|p: Vec<u8>| p@) =~= out@.drop_last().map_values(
            |p: Vec<u8>| p@,
        ).push(out@.last()@));
        assert(out@.map_values(|p: Vec<u8>| p@) =~= split_bytes(s@, sep));
    }
    out
}

} // verus!
