//! Names and types for generated Rust code.
use vstd::prelude::*;
use vstd::string::StringExecFns;

use super::kiwi_file::{FieldDisplay, FieldVariant};
use super::to_result::str_eq;
use crate::digits::{digits, push_char, push_digits};

verus! {

/// The unsigned integer type that holds a number of bits.
pub struct BitContainerType(pub u32);

impl BitContainerType {
    /// The name of the smallest unsigned integer type of at most 64 bits that holds the bits.
    pub fn rust_type(&self) -> (r: String)
        requires
            self.0 <= 64,
        ensures
            r@ == if self.0 <= 8 {
                "u8"@
            } else if self.0 <= 16 {
                "u16"@
            } else if self.0 <= 32 {
                "u32"@
            } else {
                "u64"@
            },
    {
        let num_bits = self.0;
        if num_bits <= 8 {
            return String::from_str("u8");
        }
        if num_bits <= 16 {
            return String::from_str("u16");
        }
        if num_bits <= 32 {
            return String::from_str("u32");
        }
        String::from_str("u64")
    }
}

/// `c` in upper case, where it is an ASCII lower case letter.
pub open spec fn ascii_upper(c: char) -> char {
    if 'a' <= c && c <= 'z' {
        ((c as u32) - 32) as char
    } else {
        c
    }
}

/// Whether `c` separates words: a hyphen, or where `underscores` holds an underscore too.
pub open spec fn is_separator(c: char, underscores: bool) -> bool {
    c == '-' || (underscores && c == '_')
}

/// The camel case form of the first `n` characters of `s`, and whether the next character starts
/// a word: separators are dropped and the first character of each word is made upper case.
pub open spec fn camel_prefix(s: Seq<char>, n: nat, underscores: bool) -> (Seq<char>, bool)
    decreases n,
{
    if n == 0 {
        (Seq::empty(), true)
    } else {
        let (out, upper) = camel_prefix(s, (n - 1) as nat, underscores);
        let c = s[n - 1];
        if is_separator(c, underscores) {
            (out, true)
        } else {
            (out.push(if upper { ascii_upper(c) } else { c }), false)
        }
    }
}


/// `c` in upper case, where it is an ASCII lower case letter.
fn to_ascii_upper(c: char) -> (r: char)
    ensures
        r == ascii_upper(c),
{
    if 'a' <= c && c <= 'z' {
        let code = (c as u32) - 32;
        (code as u8) as char
    } else {
        c
    }
}

/// The camel case form of `name`, with `-` and, where `underscores` holds, `_` separating words.
fn to_camel(name: &str, underscores: bool) -> (r: String)
    ensures
        r@ == camel_prefix(name@, name@.len(), underscores).0,
{
    let n = name.unicode_len();
    let mut out = String::new();
    let mut is_uppercase = true;
    let mut i: usize = 0;
    while i < n
        invariant
            n == name@.len(),
            i <= n,
            (out@, is_uppercase) == camel_prefix(name@, i as nat, underscores),
        decreases n - i,
    {
        let c = name.get_char(i);
        if c == '-' || (underscores && c == '_') {
            is_uppercase = true;
        } else {
            let c = if is_uppercase { to_ascii_upper(c) } else { c };
            is_uppercase = false;
            push_char(&mut out, c);
        }
        i = i + 1;
    }
    out
}

/// The camel case form of a kebab case name: the hyphens are dropped and each word starts with an
/// upper case letter.
pub fn kebab_to_camel(name: &str) -> (r: String)
    ensures
        r@ == camel_prefix(name@, name@.len(), false).0,
{
    to_camel(name, false)
}

/// The name of the struct that holds the operands of the instruction `name`: its camel case form,
/// with both `-` and `_` separating words.
pub fn to_args_struct_name(name: &str) -> (r: String)
    ensures
        r@ == camel_prefix(name@, name@.len(), true).0,
{
    to_camel(name, true)
}

/// The line that shows a field of a built-in variant with its display: the number in decimal
/// (a signed variant or a relative label as `i64`, an unsigned one as `u64`) or in hexadecimal;
/// `None` for a pair that has no such line.
pub open spec fn intrinsic_line(variant: Seq<char>, display: Seq<char>, indent: Seq<char>) -> Option<Seq<char>> {
    if variant == "signed-int"@ && display == "default"@ {
        Some(indent + "write!(f, \"{}\", self.0 as i64)?;\n"@)
    } else if variant == "unsigned-int"@ && display == "default"@ {
        Some(indent + "write!(f, \"{}\", self.0 as u64)?;\n"@)
    } else if variant == "signed-hex"@ && display == "default"@ {
        Some(indent + "write!(f, \"{:x}\", self.0 as i64)?;\n"@)
    } else if variant == "unsigned-hex"@ && display == "default"@ {
        Some(indent + "write!(f, \"{:x}\", self.0 as u64)?;\n"@)
    } else if variant == "rel-label"@ && display == "imm"@ {
        Some(indent + "write!(f, \"{}\", self.0 as i64)?;\n"@)
    } else {
        None
    }
}

/// The line that shows a field of a built-in variant with its display.
pub fn field_display_intrinsic_fmt_codegen(out: &mut String, field_variant: &str, field_display: &str, indent: &str)
    requires
        intrinsic_line(field_variant@, field_display@, indent@) is Some,
    ensures
        final(out)@ == old(out)@ + intrinsic_line(field_variant@, field_display@, indent@)->0,
{
    let line = if str_eq(field_variant, "signed-int") && str_eq(field_display, "default") {
        "write!(f, \"{}\", self.0 as i64)?;\n"
    } else if str_eq(field_variant, "unsigned-int") && str_eq(field_display, "default") {
        "write!(f, \"{}\", self.0 as u64)?;\n"
    } else if str_eq(field_variant, "signed-hex") && str_eq(field_display, "default") {
        "write!(f, \"{:x}\", self.0 as i64)?;\n"
    } else if str_eq(field_variant, "unsigned-hex") && str_eq(field_display, "default") {
        "write!(f, \"{:x}\", self.0 as u64)?;\n"
    } else {
        "write!(f, \"{}\", self.0 as i64)?;\n"
    };
    out.append(indent);
    out.append(line);
}

/// The entries of a lookup table, each quoted and followed by `, `.
pub open spec fn lut_entries(lookup: Seq<String>) -> Seq<char>
    decreases lookup.len(),
{
    if lookup.len() == 0 {
        Seq::empty()
    } else {
        lut_entries(lookup.drop_last()) + "\""@ + lookup.last()@ + "\", "@
    }
}

/// The lines that show a field with a display: a template is not supported yet; a lookup table
/// of `2^n` entries, `n` the size of the variant's one argument, is indexed by the low `n` bits.
pub open spec fn display_lines(variant: FieldVariant, display: FieldDisplay, indent: Seq<char>) -> Seq<char> {
    match display {
        FieldDisplay::Template(_) => indent + "todo!();\n"@,
        FieldDisplay::Lut(lookup) => {
            let bits = variant.arg_max_sizes@[0];
            let size = vstd::arithmetic::power2::pow2(bits as nat);
            indent + "static LUT: [&str; "@ + digits(size, 10) + "] = ["@ + lut_entries(lookup@) + "];\n"@ + indent
                + "f.write_str(LUT[(self.0 & 0b"@ + digits((size - 1) as nat, 2) + ") as usize])?;\n"@
        },
    }
}

/// The lines that show a field with a display.
pub fn field_display_fmt_codegen(out: &mut String, field_variant: &FieldVariant, field_display: &FieldDisplay, indent: &str)
    requires
        field_display matches FieldDisplay::Lut(_) ==> field_variant.arg_max_sizes@.len() == 1
            && field_variant.arg_max_sizes@[0] < 31,
    ensures
        final(out)@ == old(out)@ + display_lines(*field_variant, *field_display, indent@),
{
    let ghost before = old(out)@;
    match field_display {
        FieldDisplay::Template(_) => {
            out.append(indent);
            out.append("todo!();\n");
        },
        FieldDisplay::Lut(lookup) => {
            let bits = field_variant.arg_max_sizes[0];
            let size: u32 = 1u32 << bits;
            proof {
                lemma_shift_is_pow2(bits);
                vstd::arithmetic::power2::lemma_pow2_pos(bits as nat);
            }
            let mask = size - 1;
            out.append(indent);
            out.append("static LUT: [&str; ");
            push_digits(out, size as u64, 10);
            out.append("] = [");
            let ghost head = out@;
            let mut i: usize = 0;
            proof {
                assert(lookup@.take(0) =~= Seq::<String>::empty());
            }
            while i < lookup.len()
                invariant
                    i <= lookup@.len(),
                    out@ == head + lut_entries(lookup@.take(i as int)),
                decreases lookup@.len() - i,
            {
                out.append("\"");
                out.append(lookup[i].as_str());
                out.append("\", ");
                proof {
                    assert(lookup@.take(i + 1).drop_last() =~= lookup@.take(i as int));
                    assert(out@ =~= head + lut_entries(lookup@.take(i + 1)));
                }
                i = i + 1;
            }
            proof {
                assert(lookup@.take(lookup@.len() as int) =~= lookup@);
            }
            out.append("];\n");
            out.append(indent);
            out.append("f.write_str(LUT[(self.0 & 0b");
            push_digits(out, mask as u64, 2);
            out.append(") as usize])?;\n");
            proof {
                assert(out@ =~= before + display_lines(*field_variant, *field_display, indent@));
            }
        },
    }
}

/// One shifted left by `n` is two to the power `n`.
proof fn lemma_shift_is_pow2(n: u32)
    requires
        n < 32,
    ensures
        1u32 << n == vstd::arithmetic::power2::pow2(n as nat),
{
    vstd::bits::lemma_u32_pow2_no_overflow(n as nat);
    vstd::bits::lemma_u32_shl_is_mul(1, n);
}

} // verus!
