//! OmniIR: the minimal common intermediate representation of kernels.
//!
//! This version knows one module, `vector_add_f32`. Its byte form is the magic
//! `OCIR2\0`, the UTF-8 bytes of the module name, a zero byte, and the UTF-8
//! bytes of the entry point.

use vstd::prelude::*;
use vstd::string::StringSliceAdditionalSpecFns;
use vstd::utf8::{decode_utf8, encode_utf8, valid_utf8};
use crate::error::Error;
use crate::kernel::{CompiledKernel, KernelSource};
use crate::text::str_eq;

verus! {

/// An IR module.
#[derive(Clone, Debug, PartialEq, Eq)]
pub struct IrModule {
    pub name: String,
    pub entry: String,
    pub ops: Vec<IrOp>,
}

/// One IR operation.
#[derive(Clone, Copy, Debug, PartialEq, Eq, Structural)]
pub enum IrOp {
    /// `c[i] = a[i] + b[i]` for `i = global_id_x`, guarded by `i < n`; the
    /// fields are the indices of the kernel arguments that hold `a`, `b`, `c`
    /// and `n`.
    VectorAddF32 { a_arg: usize, b_arg: usize, c_arg: usize, n_arg: usize },
}

/// The operations of the `vector_add_f32` module.
pub open spec fn vector_add_ops() -> Seq<IrOp> {
    seq![IrOp::VectorAddF32 { a_arg: 0, b_arg: 1, c_arg: 2, n_arg: 3 }]
}

/// The six bytes that start every encoded module: `OCIR2\0`.
pub open spec fn ir_magic() -> Seq<u8> {
    seq![0x4Fu8, 0x43u8, 0x49u8, 0x52u8, 0x32u8, 0x00u8]
}

/// The byte form of a module with the given name and entry point.
pub open spec fn spec_encode(name: Seq<char>, entry: Seq<char>) -> Seq<u8> {
    ir_magic() + encode_utf8(name) + seq![0u8] + encode_utf8(entry)
}

/// `p` is the index of the first zero byte of `s`.
pub open spec fn first_zero_at(s: Seq<u8>, p: int) -> bool {
    &&& 0 <= p < s.len()
    &&& s[p] == 0
    &&& forall|j: int| 0 <= j < p ==> s[j] != 0
}

/// What a byte string decodes to.
pub enum IrParse {
    Module { name: Seq<char>, entry: Seq<char> },
    MissingMagic,
    MissingSeparator,
    /// The bytes (the name's, else the entry's) that are not UTF-8.
    NotUtf8(Seq<u8>),
    Unsupported(Seq<char>),
}

/// Decoding, step by step: the magic, the name up to the first zero byte after
/// it, the entry point after that byte, and the name must be a known module.
pub open spec fn spec_parse(bytes: Seq<u8>) -> IrParse {
    if bytes.len() < 6 || bytes.take(6) != ir_magic() {
        IrParse::MissingMagic
    } else {
        let rest = bytes.skip(6);
        if !rest.contains(0u8) {
            IrParse::MissingSeparator
        } else {
            let p = choose|p: int| first_zero_at(rest, p);
            let name_bytes = rest.take(p);
            let entry_bytes = rest.skip(p + 1);
            if !valid_utf8(name_bytes) {
                IrParse::NotUtf8(name_bytes)
            } else if !valid_utf8(entry_bytes) {
                IrParse::NotUtf8(entry_bytes)
            } else if decode_utf8(name_bytes) != "vector_add_f32"@ {
                IrParse::Unsupported(decode_utf8(name_bytes))
            } else {
                IrParse::Module { name: decode_utf8(name_bytes), entry: decode_utf8(entry_bytes) }
            }
        }
    }
}

/// The text that the `Utf8Error` of `std::str::from_utf8` displays for `bytes`.
pub uninterp spec fn utf8_error_text(bytes: Seq<u8>) -> Seq<char>;

/// `std::str::from_utf8`: the standard library documents that it succeeds
/// exactly on valid UTF-8 and then views the same bytes as a string. On
/// failure this gives the text its `Utf8Error` displays, which depends on the
/// bytes alone (named `utf8_error_text`); its wording is left to the name.
#[verifier::external_body]
fn str_from_utf8(v: &[u8]) -> (r: Result<&str, String>)
    ensures
        r is Ok <==> valid_utf8(v@),
        r matches Ok(s) ==> s.spec_bytes() == v@,
        r matches Err(m) ==> m@ == utf8_error_text(v@),
{
    match std::str::from_utf8(v) {
        Ok(s) => Ok(s),
        Err(e) => Err(format!("{e}")),
    }
}

fn magic_bytes() -> (r: Vec<u8>)
    ensures
        r@ == ir_magic(),
{
    let v: Vec<u8> = vec![0x4Fu8, 0x43u8, 0x49u8, 0x52u8, 0x32u8, 0x00u8];
    assert(v@ =~= ir_magic());
    v
}

fn push_all(out: &mut Vec<u8>, s: &[u8])
    ensures
        final(out)@ == old(out)@ + s@,
{
    let mut i: usize = 0;
    while i < s.len()
        invariant
            i <= s@.len(),
            out@ == old(out)@ + s@.take(i as int),
        decreases s@.len() - i,
    {
        out.push(s[i]);
        i = i + 1;
        assert(out@ =~= old(out)@ + s@.take(i as int));
    }
    assert(s@.take(s@.len() as int) =~= s@);
}

impl IrModule {
    /// The reference kernel: `vector_add_f32`, entry `main`.
    pub fn vector_add_f32() -> (r: Self)
        ensures
            r.name@ == "vector_add_f32"@,
            r.entry@ == "main"@,
            r.ops@ == vector_add_ops(),
    {
        let ops = vec![IrOp::VectorAddF32 { a_arg: 0, b_arg: 1, c_arg: 2, n_arg: 3 }];
        assert(ops@ =~= vector_add_ops());
        IrModule { name: "vector_add_f32".to_owned(), entry: "main".to_owned(), ops }
    }

    /// The byte form of this module.
    pub fn encode(&self) -> (r: Vec<u8>)
        ensures
            r@ == spec_encode(self.name@, self.entry@),
    {
        let mut out = magic_bytes();
        push_all(&mut out, self.name.as_str().as_bytes());
        out.push(0u8);
        push_all(&mut out, self.entry.as_str().as_bytes());
        out
    }

    /// Parse a byte form back into a module.
    pub fn decode(bytes: &[u8]) -> (r: Result<Self, Error>)
        ensures
            match spec_parse(bytes@) {
                IrParse::Module { name, entry } => r matches Ok(m) && m.name@ == name && m.entry@
                    == entry && m.ops@ == vector_add_ops(),
                IrParse::MissingMagic => r == Err::<Self, Error>(
                    Error::InvalidIr("missing OCIR2 magic"),
                ),
                IrParse::MissingSeparator => r == Err::<Self, Error>(
                    Error::InvalidIr("missing name separator"),
                ),
                IrParse::NotUtf8(b) => r matches Err(Error::Utf8(m)) && m@ == utf8_error_text(b),
                IrParse::Unsupported(n) => r matches Err(Error::UnsupportedIrModule(s)) && s@ == n,
            },
    {
        let magic = magic_bytes();
        if bytes.len() < 6 {
            return Err(Error::InvalidIr("missing OCIR2 magic"));
        }
        let mut i: usize = 0;
        while i < 6
            invariant
                bytes@.len() >= 6,
                magic@ == ir_magic(),
                i <= 6,
                forall|j: int| 0 <= j < i ==> bytes@[j] == magic@[j],
            decreases 6 - i,
        {
            if bytes[i] != magic[i] {
                assert(bytes@.take(6)[i as int] != ir_magic()[i as int]);
                return Err(Error::InvalidIr("missing OCIR2 magic"));
            }
            i = i + 1;
        }
        assert(bytes@.take(6) =~= ir_magic());
        let rest = vstd::slice::slice_subrange(bytes, 6, bytes.len());
        assert(rest@ == bytes@.skip(6));
        let mut pos: usize = 0;
        while pos < rest.len() && rest[pos] != 0
            invariant
                pos <= rest@.len(),
                forall|j: int| 0 <= j < pos ==> rest@[j] != 0,
            decreases rest@.len() - pos,
        {
            pos = pos + 1;
        }
        if pos == rest.len() {
            assert(!rest@.contains(0u8));
            return Err(Error::InvalidIr("missing name separator"));
        }
        assert(first_zero_at(rest@, pos as int));
        assert(rest@.contains(0u8));
        proof {
            let p = choose|p: int| first_zero_at(rest@, p);
            assert(p == pos);
        }
        let name_bytes = vstd::slice::slice_subrange(rest, 0, pos);
        let entry_bytes = vstd::slice::slice_subrange(rest, pos + 1, rest.len());
        assert(name_bytes@ =~= rest@.take(pos as int));
        assert(entry_bytes@ =~= rest@.skip(pos + 1));
        let name = match str_from_utf8(name_bytes) {
            Ok(s) => s,
            Err(m) => return Err(Error::Utf8(m)),
        };
        let entry = match str_from_utf8(entry_bytes) {
            Ok(s) => s,
            Err(m) => return Err(Error::Utf8(m)),
        };
        proof {
            vstd::utf8::encode_utf8_decode_utf8(name@);
            vstd::utf8::encode_utf8_decode_utf8(entry@);
        }
        if !str_eq(name, "vector_add_f32") {
            return Err(Error::UnsupportedIrModule(name.to_owned()));
        }
        let mut m = IrModule::vector_add_f32();
        m.entry = entry.to_owned();
        Ok(m)
    }

    /// This module as an OmniIR kernel.
    pub fn to_compiled_omniir(&self) -> (r: CompiledKernel)
        ensures
            r.name@ == self.name@,
            r.entry@ == self.entry@,
            r.source matches KernelSource::OmniIr(b) && b@ == spec_encode(self.name@, self.entry@),
    {
        CompiledKernel::omniir(self.name.clone(), self.entry.clone(), self.encode())
    }
}

/// Lower a module to a native CPU kernel of the same name. Only the canonical
/// `vector_add_f32` operation list lowers; the CPU backend holds the native
/// body under that name.
pub fn lower_to_native(module: &IrModule) -> (r: Result<CompiledKernel, Error>)
    ensures
        module.ops@ == vector_add_ops() ==> (r matches Ok(k) && k.name@ == module.name@
            && k.source == KernelSource::Native && k.entry@ == module.name@),
        module.ops@ != vector_add_ops() ==> r == Err::<CompiledKernel, Error>(Error::NotLowerable),
{
    if module.ops.len() != 1 {
        proof {
            assert(module.ops@.len() != vector_add_ops().len());
        }
        return Err(Error::NotLowerable);
    }
    let canonical = match module.ops[0] {
        IrOp::VectorAddF32 { a_arg, b_arg, c_arg, n_arg } => a_arg == 0 && b_arg == 1 && c_arg == 2
            && n_arg == 3,
    };
    if !canonical {
        proof {
            assert(module.ops@[0] != vector_add_ops()[0]);
        }
        return Err(Error::NotLowerable);
    }
    assert(module.ops@ =~= vector_add_ops());
    Ok(CompiledKernel::native(module.name.clone()))
}

/// Decoding the byte form of a module gives that module back, for every module
/// that decoding can produce: the name `vector_add_f32` and any entry point.
pub proof fn law_decode_encode(entry: Seq<char>)
    ensures
        spec_parse(spec_encode("vector_add_f32"@, entry)) == (IrParse::Module {
            name: "vector_add_f32"@,
            entry,
        }),
{
    let name = "vector_add_f32"@;
    let nb = encode_utf8(name);
    let eb = encode_utf8(entry);
    let bytes = spec_encode(name, entry);
    reveal_strlit("vector_add_f32");
    assert(vstd::utf8::is_ascii_chars(name));
    vstd::utf8::is_ascii_chars_encode_utf8(name);
    assert forall|j: int| 0 <= j < nb.len() implies nb[j] != 0 by {
        assert(name[j] as u8 == nb[j]);
    }
    assert(bytes.take(6) =~= ir_magic());
    let rest = bytes.skip(6);
    assert(rest =~= nb + seq![0u8] + eb);
    let p = nb.len() as int;
    assert(first_zero_at(rest, p));
    assert(rest.contains(0u8));
    let q = choose|q: int| first_zero_at(rest, q);
    assert(q == p) by {
        if q < p {
            assert(rest[q] == nb[q]);
        }
        if q > p {
            assert(rest[p] == 0);
        }
    }
    assert(rest.take(p) =~= nb);
    assert(rest.skip(p + 1) =~= eb);
    vstd::utf8::encode_utf8_valid_utf8(name);
    vstd::utf8::encode_utf8_valid_utf8(entry);
    vstd::utf8::encode_utf8_decode_utf8(name);
    vstd::utf8::encode_utf8_decode_utf8(entry);
}

} // verus!
