use vstd::prelude::*;

verus! {

/// The bytes of `"Object "`.
pub open spec fn opening() -> Seq<u8> {
    seq![79u8, 98, 106, 101, 99, 116, 32]
}

/// The bytes of `" did hit "`.
pub open spec fn joint() -> Seq<u8> {
    seq![32u8, 100, 105, 100, 32, 104, 105, 116, 32]
}

/// The console line that tells that the ray of `object` hit `target`:
/// `Object <object> did hit <target>`, closed by a zero byte, since the
/// host reads it as a C string.
pub open spec fn hit_message_of(object: Seq<u8>, target: Seq<u8>) -> Seq<u8> {
    opening() + object + joint() + target + seq![0u8]
}

/// Appends the bytes of `src` to `out`.
fn append_bytes(out: &mut Vec<u8>, src: &Vec<u8>)
    requires
        old(out)@.len() + src@.len() <= usize::MAX,
    ensures
        final(out)@ == old(out)@ + src@,
{
    let mut i: usize = 0;
    while i < src.len()
        invariant
            i <= src@.len(),
            out@ == old(out)@ + src@.subrange(0, i as int),
        decreases src@.len() - i,
    {
        out.push(src[i]);
        i = i + 1;
        assert(src@.subrange(0, i as int) == src@.subrange(0, i - 1 as int).push(src@[i - 1]));
    }
    assert(src@.subrange(0, src@.len() as int) == src@);
}

/// Builds the console line that tells that the ray of `object` hit `target`.
pub fn hit_message(object: &Vec<u8>, target: &Vec<u8>) -> (r: Vec<u8>)
    requires
        object@.len() + target@.len() + 17 <= usize::MAX,
    ensures
        r@ == hit_message_of(object@, target@),
{
    let opening_bytes: Vec<u8> = vec![79u8, 98, 106, 101, 99, 116, 32];
    let joint_bytes: Vec<u8> = vec![32u8, 100, 105, 100, 32, 104, 105, 116, 32];
    assert(opening_bytes@ == opening());
    assert(joint_bytes@ == joint());
    let mut out: Vec<u8> = Vec::new();
    append_bytes(&mut out, &opening_bytes);
    append_bytes(&mut out, object);
    append_bytes(&mut out, &joint_bytes);
    append_bytes(&mut out, target);
    out.push(0u8);
    out
}

} // verus!
