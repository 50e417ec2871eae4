use vstd::prelude::*;

verus! {

/// Relies on std::io::BufRead::fill_buf: hands back the next byte of the
/// input stream without consuming it, `None` at end of input, or the host
/// error's text. What comes back depends on the stream, so nothing more is
/// promised of the value.
#[verifier::external_body]
pub(crate) fn peek_byte<R: std::io::BufRead>(reader: &mut R) -> (r: Result<Option<u8>, String>) {
    match reader.fill_buf() {
        Ok(buf) => Ok(buf.first().copied()),
        Err(e) => Err(e.to_string()),
    }
}

/// Relies on std::io::Read::read with a one-byte buffer: consumes and hands
/// back at most one byte. A count of zero means end of input; the count never
/// exceeds one.
#[verifier::external_body]
pub(crate) fn read_byte<R: std::io::BufRead>(reader: &mut R) -> (r: Result<(usize, u8), String>)
    ensures
        r matches Ok(p) ==> p.0 <= 1,
{
    let mut buf = [0u8; 1];
    match reader.read(&mut buf) {
        Ok(n) => Ok((n, buf[0])),
        Err(e) => Err(e.to_string()),
    }
}

/// Relies on std::io::Write::write_all: writes the whole byte string to the
/// output stream, or hands back the host error's text.
#[verifier::external_body]
pub(crate) fn write_bytes<W: std::io::Write>(writer: &mut W, bytes: &[u8]) -> (r: Result<
    (),
    String,
>) {
    writer.write_all(bytes).map_err(|e| e.to_string())
}

} // verus!
