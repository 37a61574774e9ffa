use curl_http::body::Sink;
use curl_http::http::{HeaderParser, ParserState};
use curl_http::parse::{
    content_end, find_colon, parse_captured, parse_line, slice_bytes, HeaderLine,
};

#[test]
fn status_line_then_field() {
    let mut parser = HeaderParser::new();
    assert_eq!(parser.on_bytes(b"HTTP/1.1 200 OK\r\n"), 17);
    assert_eq!(parser.on_bytes(b"Content-Type: text/html\r\n"), 25);
    assert_eq!(parser.response.status_message, b"OK");
    assert_eq!(parser.response.headers.get(b"Content-Type").unwrap(), b"text/html");
    assert_eq!(parser.response.headers.len(), 1);
}

#[test]
fn second_status_line_clears_the_fields_of_the_first() {
    let mut parser = HeaderParser::new();
    parser.on_bytes(b"HTTP/1.1 301 Moved Permanently\r\n");
    parser.on_bytes(b"Location: http://www.example.com/\r\n");
    parser.on_bytes(b"Content-Length: 0\r\n");
    parser.on_bytes(b"\r\n");
    assert_eq!(parser.response.headers.len(), 2);
    parser.on_bytes(b"HTTP/1.1 200 OK\r\n");
    assert!(parser.response.headers.is_empty());
    parser.on_bytes(b"Content-Type: text/html\r\n");
    parser.on_bytes(b"\r\n");
    assert_eq!(parser.response.status_message, b"OK");
    assert!(parser.response.headers.get(b"Location").is_none());
    assert!(parser.response.headers.get(b"Content-Length").is_none());
    assert_eq!(parser.response.headers.get(b"Content-Type").unwrap(), b"text/html");
    assert_eq!(parser.response.headers.len(), 1);
}

#[test]
fn a_colon_too_close_to_the_end_is_skipped() {
    let mut parser = HeaderParser::new();
    parser.on_bytes(b"HTTP/1.1 200 OK\r\n");
    parser.on_bytes(b"Kept: yes\r\n");
    // the colon stands at len - 4
    assert_eq!(parser.on_bytes(b"X: \r\n"), 5);
    // at len - 3, len - 2 and len - 1
    assert_eq!(parser.on_bytes(b"XY:\r\n"), 5);
    assert_eq!(parser.on_bytes(b"XYZ:\n"), 5);
    assert_eq!(parser.on_bytes(b"XYZW:"), 5);
    assert_eq!(parser.on_bytes(b":"), 1);
    assert_eq!(parser.on_bytes(b"A:bc"), 4);
    assert_eq!(parser.response.headers.len(), 1);
    assert_eq!(parser.response.headers.get(b"Kept").unwrap(), b"yes");
    assert_eq!(parser.response.status_message, b"OK");
}

#[test]
fn a_colon_five_bytes_before_the_end_makes_a_field() {
    assert_eq!(
        parse_line(b"X: y\r\n"),
        HeaderLine::Field(b"X".to_vec(), b"y".to_vec())
    );
    assert_eq!(parse_line(b"X: \r\n"), HeaderLine::Other);
    assert_eq!(
        parse_line(b"X:  \r\n"),
        HeaderLine::Field(b"X".to_vec(), b" ".to_vec())
    );
    assert_eq!(
        parse_line(b"A:bcde"),
        HeaderLine::Field(b"A".to_vec(), b"cde".to_vec())
    );
}

#[test]
fn the_value_starts_two_bytes_after_the_first_colon() {
    assert_eq!(
        parse_line(b"Date: Tue, 10:20:30 GMT\r\n"),
        HeaderLine::Field(b"Date".to_vec(), b"Tue, 10:20:30 GMT".to_vec())
    );
    assert_eq!(
        parse_line(b"Name:value\r\n"),
        HeaderLine::Field(b"Name".to_vec(), b"alue".to_vec())
    );
    assert_eq!(
        parse_line(b": value\r\n"),
        HeaderLine::Field(b"".to_vec(), b"value".to_vec())
    );
}

#[test]
fn status_lines() {
    assert_eq!(parse_line(b"HTTP/1.1 200 OK\r\n"), HeaderLine::Status(b"OK".to_vec()));
    assert_eq!(parse_line(b"HTTP/1.0 404 Not Found\n"), HeaderLine::Status(b"Not Found".to_vec()));
    assert_eq!(parse_line(b"HTTP/2.0 204 "), HeaderLine::Status(b"".to_vec()));
    assert_eq!(parse_line(b"HTTP/1.1 200 \r\n"), HeaderLine::Status(b"".to_vec()));
    assert_eq!(
        parse_line(b"HTTP/1.1 200 Connection: established\r\n"),
        HeaderLine::Status(b"Connection: established".to_vec())
    );
}

#[test]
fn the_leftmost_status_prefix_counts() {
    assert_eq!(
        parse_line(b"Via: HTTP/1.1 200 proxy\r\n"),
        HeaderLine::Status(b"proxy".to_vec())
    );
    assert_eq!(
        parse_line(b"HTTP/1.1 200 HTTP/1.1 300 x\r\n"),
        HeaderLine::Status(b"HTTP/1.1 300 x".to_vec())
    );
    assert_eq!(parse_line(b"xxHTTP/1.1 200 OK"), HeaderLine::Status(b"OK".to_vec()));
}

#[test]
fn the_reason_phrase_ends_with_the_line() {
    assert_eq!(parse_line(b"HTTP/1.1 200 OK\nmore\r\n"), HeaderLine::Status(b"OK".to_vec()));
    assert_eq!(parse_line(b"HTTP/1.1 200 OK\r"), HeaderLine::Status(b"OK".to_vec()));
    assert_eq!(parse_line(b"HTTP/1.1 200 OK\r\r\n"), HeaderLine::Status(b"OK\r".to_vec()));
    assert_eq!(
        parse_line(b"HTTP/1.1 200 caf\xe9 \xff\r\n"),
        HeaderLine::Status(b"caf\xe9 \xff".to_vec())
    );
}

#[test]
fn lines_that_are_no_status_lines() {
    assert_eq!(parse_line(b"HTTP/1.1 200\r\n"), HeaderLine::Other);
    assert_eq!(parse_line(b"HTTP/1.1 20 OK\r\n"), HeaderLine::Other);
    assert_eq!(parse_line(b"HTTP/11 200 OK\r\n"), HeaderLine::Other);
    assert_eq!(parse_line(b"HTTP/a.1 200 OK\r\n"), HeaderLine::Other);
    assert_eq!(parse_line(b"http/1.1 200 OK\r\n"), HeaderLine::Other);
    assert_eq!(parse_line(b"HTTP/1.1  200 OK\r\n"), HeaderLine::Other);
    assert_eq!(parse_line(b"HTTP/1.1 2000 OK\r\n"), HeaderLine::Other);
    assert_eq!(parse_line(b"HTTP/1.1 200"), HeaderLine::Other);
    assert_eq!(parse_line(b"HTTP/1x1 200 OK\r\n"), HeaderLine::Other);
    // digits of other scripts are no digits here
    assert_eq!(
        parse_line("HTTP/1.1 2\u{0660}0 OK\r\n".as_bytes()),
        HeaderLine::Other
    );
    assert_eq!(
        parse_line(b"HTTP/1.1 20: x\r\n"),
        HeaderLine::Field(b"HTTP/1.1 20".to_vec(), b"x".to_vec())
    );
}

#[test]
fn a_found_reason_phrase_makes_a_status_line() {
    let line = b"anything at all\r\n";
    assert_eq!(parse_captured(line, Some((0, 8))), HeaderLine::Status(b"anything".to_vec()));
    assert_eq!(parse_captured(line, Some((9, 16))), HeaderLine::Status(b"at all".to_vec()));
    assert_eq!(parse_captured(line, Some((9, 17))), HeaderLine::Status(b"at all\r\n".to_vec()));
    assert_eq!(parse_captured(line, Some((16, 16))), HeaderLine::Status(b"".to_vec()));
    assert_eq!(parse_captured(line, Some((15, 16))), HeaderLine::Status(b"".to_vec()));
    assert_eq!(parse_captured(line, Some((17, 17))), HeaderLine::Status(b"".to_vec()));
    assert_eq!(parse_captured(b"", Some((0, 0))), HeaderLine::Status(b"".to_vec()));
    assert_eq!(parse_captured(b"A: b\r\n", None), HeaderLine::Field(b"A".to_vec(), b"b".to_vec()));
    assert_eq!(parse_captured(b"HTTP/1.1 200 OK\r\n", None), HeaderLine::Other);
}

#[test]
fn blank_and_other_lines() {
    assert_eq!(parse_line(b"\r\n"), HeaderLine::Blank);
    assert_eq!(parse_line(b"\n"), HeaderLine::Blank);
    assert_eq!(parse_line(b""), HeaderLine::Blank);
    assert_eq!(parse_line(b"\r"), HeaderLine::Other);
    assert_eq!(parse_line(b"  continued value\r\n"), HeaderLine::Other);
    assert_eq!(parse_line(b"no colon here\r\n"), HeaderLine::Other);
}

#[test]
fn line_ends() {
    assert_eq!(content_end(b"abc\r\n"), 3);
    assert_eq!(content_end(b"abc\n"), 3);
    assert_eq!(content_end(b"abc\r"), 4);
    assert_eq!(content_end(b"abc"), 3);
    assert_eq!(content_end(b"\r\n"), 0);
    assert_eq!(content_end(b"\n"), 0);
    assert_eq!(content_end(b""), 0);
    assert_eq!(content_end(b"a\n\r\n"), 2);
}

#[test]
fn colons_and_slices() {
    assert_eq!(find_colon(b"a:b:c"), Some(1));
    assert_eq!(find_colon(b":"), Some(0));
    assert_eq!(find_colon(b"abc"), None);
    assert_eq!(find_colon(b""), None);
    assert_eq!(slice_bytes(b"abcdef", 2, 4), b"cd");
    assert_eq!(slice_bytes(b"abcdef", 3, 3), b"");
    assert_eq!(slice_bytes(b"abcdef", 0, 6), b"abcdef");
}

#[test]
fn a_field_set_twice_keeps_its_last_value() {
    let mut parser = HeaderParser::new();
    parser.on_bytes(b"HTTP/1.1 200 OK\r\n");
    parser.on_bytes(b"Set-Cookie: a=1\r\n");
    parser.on_bytes(b"Set-Cookie: b=2\r\n");
    assert_eq!(parser.response.headers.len(), 1);
    assert_eq!(parser.response.headers.get(b"Set-Cookie").unwrap(), b"b=2");
}

#[test]
fn parser_states() {
    let mut parser = HeaderParser::new();
    assert_eq!(parser.state, ParserState::AwaitingStatusLine);
    parser.on_bytes(b"HTTP/1.1 302 Found\r\n");
    assert_eq!(parser.state, ParserState::CollectingHeaders);
    parser.on_bytes(b"Location: /next\r\n");
    assert_eq!(parser.state, ParserState::CollectingHeaders);
    parser.on_bytes(b"garbage\r\n");
    assert_eq!(parser.state, ParserState::CollectingHeaders);
    parser.on_bytes(b"\r\n");
    assert_eq!(parser.state, ParserState::AwaitingStatusLine);
    parser.on_bytes(b"HTTP/1.1 200 OK\r\n");
    assert_eq!(parser.state, ParserState::CollectingHeaders);
}

#[test]
fn fields_before_any_status_line_are_kept() {
    let mut parser = HeaderParser::new();
    parser.on_bytes(b"Server: test\r\n");
    assert_eq!(parser.state, ParserState::AwaitingStatusLine);
    assert_eq!(parser.response.headers.get(b"Server").unwrap(), b"test");
    assert_eq!(parser.response.status_message, b"");
}

#[test]
fn the_parser_leaves_the_rest_of_the_response_alone() {
    let mut parser = HeaderParser::new();
    parser.on_bytes(b"HTTP/1.1 200 OK\r\n");
    parser.on_bytes(b"A: b\r\n");
    let response = parser.into_response();
    assert_eq!(response.status_code, 0);
    assert_eq!(response.url, "");
    assert!(response.content_data.is_none());
    assert_eq!(response.status_message, b"OK");
}

/// The reason phrase of the leftmost status line in `line`, found by hand.
fn reason_by_hand(line: &[u8]) -> Option<Vec<u8>> {
    let digit = |b: u8| b.is_ascii_digit();
    let mut i = 0;
    while i + 13 <= line.len() {
        let w = &line[i..i + 13];
        if &w[..5] == b"HTTP/"
            && digit(w[5])
            && w[6] == b'.'
            && digit(w[7])
            && w[8] == b' '
            && digit(w[9])
            && digit(w[10])
            && digit(w[11])
            && w[12] == b' '
        {
            let mut end = i + 13;
            while end < line.len() && line[end] != b'\n' {
                end += 1;
            }
            if end > i + 13 && line[end - 1] == b'\r' {
                end -= 1;
            }
            return Some(line[i + 13..end].to_vec());
        }
        i += 1;
    }
    None
}

#[test]
fn status_lines_are_found_where_they_stand() {
    let pieces: [&[u8]; 16] = [
        b"",
        b"x",
        b" ",
        b":",
        b"\r",
        b"\n",
        b"\r\n",
        b"HTTP/",
        b"HTTP/1.1 ",
        b"HTTP/1.1 200",
        b"HTTP/1.1 200 ",
        b"HTTP/9.0 999 OK",
        b"HTTP/1.1 2x0 ",
        b"HTTP/1,1 200 ",
        b"200 ",
        b"\xff\xd9\xa0",
    ];
    let mut seen_status = 0;
    let mut seen_other = 0;
    for a in pieces.iter() {
        for b in pieces.iter() {
            for c in pieces.iter() {
                let mut line: Vec<u8> = Vec::new();
                line.extend_from_slice(a);
                line.extend_from_slice(b);
                line.extend_from_slice(c);
                let parsed = parse_line(&line);
                match reason_by_hand(&line) {
                    Some(reason) => {
                        assert_eq!(parsed, HeaderLine::Status(reason), "line {:?}", line);
                        seen_status += 1;
                    }
                    None => {
                        assert!(!matches!(parsed, HeaderLine::Status(_)), "line {:?}", line);
                        assert_eq!(parsed, parse_captured(&line, None), "line {:?}", line);
                        seen_other += 1;
                    }
                }
            }
        }
    }
    assert!(seen_status > 100);
    assert!(seen_other > 100);
}
