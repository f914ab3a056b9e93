//! The `multipart/form-data` body of a transcription request.

use vstd::prelude::*;

verus! {

/// The head of the file part: everything before the audio.
pub open spec fn file_head(
    boundary: Seq<char>,
    filename: Seq<char>,
    content_type: Seq<char>,
) -> Seq<u8> {
    vstd::utf8::encode_utf8("--"@ + boundary + "\r\n"@) + vstd::utf8::encode_utf8(
        "Content-Disposition: form-data; name=\"file\"; filename=\""@ + filename + "\"\r\n"@,
    ) + vstd::utf8::encode_utf8("Content-Type: "@ + content_type + "\r\n"@)
        + vstd::utf8::encode_utf8("\r\n"@)
}

/// The part that names the language, if there is one.
pub open spec fn language_part(boundary: Seq<char>, language: Option<Seq<char>>) -> Seq<u8> {
    match language {
        Some(lang) => vstd::utf8::encode_utf8("--"@ + boundary + "\r\n"@)
            + vstd::utf8::encode_utf8(
            "Content-Disposition: form-data; name=\"language\"\r\n"@,
        ) + vstd::utf8::encode_utf8("\r\n"@) + vstd::utf8::encode_utf8(lang + "\r\n"@),
        None => seq![],
    }
}

/// The boundary that closes the body.
pub open spec fn closing(boundary: Seq<char>) -> Seq<u8> {
    vstd::utf8::encode_utf8("--"@ + boundary + "--\r\n"@)
}

/// The whole body: the file part, the language part and the closing boundary.
pub open spec fn multipart_body(
    audio: Seq<u8>,
    boundary: Seq<char>,
    filename: Seq<char>,
    content_type: Seq<char>,
    language: Option<Seq<char>>,
) -> Seq<u8> {
    file_head(boundary, filename, content_type) + audio + vstd::utf8::encode_utf8("\r\n"@)
        + language_part(boundary, language) + closing(boundary)
}

/// Appends bytes.
fn push_bytes(body: &mut Vec<u8>, bytes: &[u8])
    ensures
        final(body)@ == old(body)@ + bytes@,
{
    body.extend_from_slice(bytes);
    assert(body@ == old(body)@ + bytes@);
}

/// Appends three texts as one, in UTF-8.
fn push_line(body: &mut Vec<u8>, before: &str, value: &str, after: &str)
    ensures
        final(body)@ == old(body)@ + vstd::utf8::encode_utf8(before@ + value@ + after@),
{
    let mut line = before.to_owned();
    line.append(value);
    line.append(after);
    push_bytes(body, line.as_str().as_bytes());
}

/// Appends a text in UTF-8.
fn push_text(body: &mut Vec<u8>, text: &str)
    ensures
        final(body)@ == old(body)@ + vstd::utf8::encode_utf8(text@),
{
    push_bytes(body, text.as_bytes());
}

/// Builds the body that carries the audio as the field `file` and, where there is
/// one, the language as the field `language`.
pub fn build_multipart_body(
    audio_data: &[u8],
    boundary: &str,
    filename: &str,
    content_type: &str,
    language: Option<&str>,
) -> (r: Vec<u8>)
    ensures
        r@ == multipart_body(
            audio_data@,
            boundary@,
            filename@,
            content_type@,
            crate::text::str_of(language),
        ),
{
    let mut body: Vec<u8> = Vec::new();
    push_line(&mut body, "--", boundary, "\r\n");
    push_line(
        &mut body,
        "Content-Disposition: form-data; name=\"file\"; filename=\"",
        filename,
        "\"\r\n",
    );
    push_line(&mut body, "Content-Type: ", content_type, "\r\n");
    push_text(&mut body, "\r\n");
    assert(body@ == file_head(boundary@, filename@, content_type@));
    push_bytes(&mut body, audio_data);
    push_text(&mut body, "\r\n");
    let ghost file_part = body@;
    if let Some(lang) = language {
        push_line(&mut body, "--", boundary, "\r\n");
        push_text(&mut body, "Content-Disposition: form-data; name=\"language\"\r\n");
        push_text(&mut body, "\r\n");
        push_line(&mut body, lang, "\r\n", "");
        proof {
            reveal_strlit("");
            assert(lang@ + "\r\n"@ + ""@ == lang@ + "\r\n"@);
        }
    }
    assert(body@ == file_part + language_part(boundary@, crate::text::str_of(language)));
    push_line(&mut body, "--", boundary, "--\r\n");
    body
}

/// The audio stands in the body byte for byte, directly after the head of its part.
pub proof fn audio_is_carried_unchanged(
    audio: Seq<u8>,
    boundary: Seq<char>,
    filename: Seq<char>,
    content_type: Seq<char>,
    language: Option<Seq<char>>,
)
    ensures
        ({
            let body = multipart_body(audio, boundary, filename, content_type, language);
            let start = file_head(boundary, filename, content_type).len() as int;
            &&& start + audio.len() <= body.len()
            &&& body.subrange(start, start + audio.len()) == audio
        }),
{
    let body = multipart_body(audio, boundary, filename, content_type, language);
    let start = file_head(boundary, filename, content_type).len() as int;
    assert(body.subrange(start, start + audio.len()) == audio);
}

/// The body ends with the closing boundary.
pub proof fn body_is_closed(
    audio: Seq<u8>,
    boundary: Seq<char>,
    filename: Seq<char>,
    content_type: Seq<char>,
    language: Option<Seq<char>>,
)
    ensures
        closing(boundary).is_suffix_of(
            multipart_body(audio, boundary, filename, content_type, language),
        ),
{
    let body = multipart_body(audio, boundary, filename, content_type, language);
    assert(body.subrange(body.len() - closing(boundary).len(), body.len() as int) == closing(
        boundary,
    ));
}

/// A language changes the body only by its own part, between the file part and the
/// closing boundary: without that part it is the body without a language.
pub proof fn language_only_adds_its_part(
    audio: Seq<u8>,
    boundary: Seq<char>,
    filename: Seq<char>,
    content_type: Seq<char>,
    language: Seq<char>,
)
    ensures
        ({
            let with = multipart_body(audio, boundary, filename, content_type, Some(language));
            let without = multipart_body(audio, boundary, filename, content_type, None);
            let at = without.len() - closing(boundary).len();
            with == without.take(at) + language_part(boundary, Some(language)) + without.skip(at)
        }),
{
    let without = multipart_body(audio, boundary, filename, content_type, None);
    let at = without.len() - closing(boundary).len();
    let file_part = file_head(boundary, filename, content_type) + audio
        + vstd::utf8::encode_utf8("\r\n"@);
    assert(without.take(at) == file_part);
    assert(without.skip(at) == closing(boundary));
}

} // verus!
