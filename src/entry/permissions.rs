use vstd::prelude::*;

verus! {

/// The letter shown at position `i` (0 to 8) of a permission string: `r`, `w`
/// or `x` for owner, group and other in turn.
pub open spec fn perm_letter_at(i: int) -> char {
    if i % 3 == 0 {
        'r'
    } else if i % 3 == 1 {
        'w'
    } else {
        'x'
    }
}

/// Whether the permission bit shown at position `i` (0 to 8) is set in `mode`;
/// position 0 is the owner's read bit (`0o400`), position 8 the other's
/// execute bit (`0o001`).
pub open spec fn perm_bit_set(mode: u32, i: int) -> bool {
    mode & (1u32 << ((8 - i) as u32)) >= 1
}

/// The nine-letter permission string of `mode`, as `ls -l` shows it.
pub open spec fn perm_text(mode: u32) -> Seq<char> {
    Seq::new(9, |i: int| if perm_bit_set(mode, i) { perm_letter_at(i) } else { '-' })
}

/// A digit of an octal permission spec.
pub open spec fn is_octal_digit(c: char) -> bool {
    '0' <= c && c <= '7'
}

/// A permission spec: exactly three octal digits.
pub open spec fn is_permission_spec(s: Seq<char>) -> bool {
    s.len() == 3 && forall|i: int| 0 <= i < 3 ==> is_octal_digit(#[trigger] s[i])
}

/// The value of an octal digit.
pub open spec fn octal_value(c: char) -> int {
    c as int - '0' as int
}

/// The mode bits that the three octal digits of `s` stand for.
pub open spec fn permission_mask(s: Seq<char>) -> int {
    64 * octal_value(s[0]) + 8 * octal_value(s[1]) + octal_value(s[2])
}

/// Decodes a permission spec such as `755` into its mode bits; `None` unless
/// `s` is exactly three digits from `0` to `7`.
pub fn parse_permissions(s: &str) -> (r: Option<u32>)
    ensures
        is_permission_spec(s@) <==> r is Some,
        r matches Some(m) ==> m as int == permission_mask(s@) && m <= 0o777,
{
    let n = s.unicode_len();
    if n != 3 {
        return None;
    }
    let mut mask: u32 = 0;
    let mut i: usize = 0;
    while i < 3
        invariant
            n == 3,
            s@.len() == 3,
            i <= 3,
            forall|j: int| 0 <= j < i ==> is_octal_digit(#[trigger] s@[j]),
            mask as int == if i == 0 {
                0
            } else if i == 1 {
                octal_value(s@[0])
            } else if i == 2 {
                8 * octal_value(s@[0]) + octal_value(s@[1])
            } else {
                permission_mask(s@)
            },
        decreases 3 - i,
    {
        let c = s.get_char(i);
        if c < '0' || c > '7' {
            return None;
        }
        mask = mask * 8 + (c as u32 - '0' as u32);
        i = i + 1;
    }
    Some(mask)
}

/// The permission bits of an entry, shown as nine letters.
#[derive(Debug)]
pub struct FilePermissions {
    bits: u32,
}

impl View for FilePermissions {
    type V = Seq<char>;

    closed spec fn view(&self) -> Seq<char> {
        perm_text(self.bits)
    }
}

impl FilePermissions {
    /// The permission string of any entry has nine letters.
    pub proof fn nine_letters(&self)
        ensures
            self@.len() == 9,
    {
    }

    /// The permissions of an entry whose full mode is `file`.
    pub fn new(file: u32) -> (r: FilePermissions)
        ensures
            r@ == perm_text(file),
    {
        let r = FilePermissions { bits: file & 0o777 };
        assert forall|i: int| 0 <= i < 9 implies perm_bit_set(file & 0o777, i) == perm_bit_set(file, i) by {
            let k = (8 - i) as u32;
            assert((file & 0o777) & (1u32 << k) == file & (1u32 << k)) by (bit_vector)
                requires k < 9;
        }
        assert(r@ =~= perm_text(file));
        r
    }

    /// The nine letters, such as `rw-r--r--`.
    pub fn to_string(&self) -> (r: String)
        ensures
            r@ == self@,
    {
        let mut text = String::new();
        let mut i: usize = 0;
        while i < 9
            invariant
                i <= 9,
                text@ == perm_text(self.bits).take(i as int),
            decreases 9 - i,
        {
            let set = self.bits & (1u32 << ((8 - i) as u32)) >= 1;
            proof {
                reveal_strlit("r");
                reveal_strlit("w");
                reveal_strlit("x");
                reveal_strlit("-");
            }
            if !set {
                text.append("-");
            } else if i % 3 == 0 {
                text.append("r");
            } else if i % 3 == 1 {
                text.append("w");
            } else {
                text.append("x");
            }
            assert(text@ =~= perm_text(self.bits).take(i + 1));
            i = i + 1;
        }
        assert(text@ =~= perm_text(self.bits));
        text
    }
}

} // verus!
