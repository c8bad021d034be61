//! A tokenizer for the sentence families seen alongside Seatalk on an NMEA
//! wire: plain NMEA and AIS sentences, DSC calls, Inmarsat-C messages and
//! the `$STALK` framing itself, each cut into talker, type, data fields and
//! checksum.

use vstd::prelude::*;
use vstd::string::*;

use crate::strutil::{
    after_first, before_first, chars_prefix, has_prefix, option_view, split_chars,
    split_once_str, split_str, str_eq, str_views, tail_strings,
};

verus! {

/// A tokenized NMEA-style sentence.
#[derive(Debug, Clone, PartialEq)]
pub struct NmeaSentence {
    /// `'$'` for standard NMEA, `'!'` for AIS, `'/'` for Inmarsat-C.
    pub sentence_type: char,
    pub talker_id: String,
    pub message_type: String,
    pub data_fields: Vec<String>,
    pub checksum: Option<String>,
}

/// The routing header of an Inmarsat-C message.
#[derive(Debug, Clone, PartialEq)]
pub struct InmarsatHeader {
    pub group_id: String,
    pub sequence_number: Option<String>,
    pub station_id: Option<String>,
    pub timestamp: Option<String>,
}

/// An Inmarsat-C message: a routing header and an NMEA-style payload.
#[derive(Debug, Clone, PartialEq)]
pub struct InmarsatMessage {
    pub header: InmarsatHeader,
    pub payload: NmeaSentence,
}

/// A `$STALK` sentence cut into its fields, the payload left untouched.
#[derive(Debug, Clone, PartialEq)]
pub struct SeatalkMessage {
    pub data_fields: Vec<String>,
    pub checksum: String,
}

/// A DSC (digital selective calling) sentence.
#[derive(Debug, Clone, PartialEq)]
pub struct DscMessage {
    pub format_specifier: String,
    pub address: String,
    pub category: String,
    pub self_id: String,
    pub subsequent_communications: String,
    pub data_fields: Vec<String>,
    pub checksum: Option<String>,
}

/// A sentence classified by its opening characters.
#[derive(Debug, Clone, PartialEq)]
pub enum MessageType {
    Nmea(NmeaSentence),
    Ais(NmeaSentence),
    Inmarsat(InmarsatMessage),
    Seatalk(SeatalkMessage),
    Dsc(DscMessage),
}

/// How a parsed checksum field relates to what stood after the `*` cut:
/// the first two characters when at least two are there, nothing otherwise.
pub open spec fn checksum_field_ok(cp: Option<Seq<char>>, ck: Option<String>) -> bool {
    match cp {
        Some(cs) => if cs.len() >= 2 {
            option_view(ck) == Some(cs.take(2))
        } else {
            ck is None
        },
        None => ck is None,
    }
}

/// Whether a sentence opens with one of the three accepted lead characters.
pub open spec fn nmea_start_ok(s: Seq<char>) -> bool {
    s.len() > 0 && (s[0] == '$' || s[0] == '!' || s[0] == '/')
}

/// How a tokenized sentence relates to its text: the lead character, the
/// talker and type cut from the first comma-separated field before the `*`,
/// the remaining fields verbatim, and the checksum rule.
pub open spec fn nmea_fields_ok(s: Seq<char>, n: NmeaSentence) -> bool {
    let content = s.drop_first();
    let dp = before_first(content, '*');
    let cp = after_first(content, '*');
    let fields = split_chars(dp, ',');
    let mt = fields[0];
    &&& n.sentence_type == s[0]
    &&& n.talker_id@ == (if mt.len() >= 2 {
        mt.take(2)
    } else {
        Seq::<char>::empty()
    })
    &&& n.message_type@ == (if mt.len() >= 2 {
        mt.skip(2)
    } else {
        Seq::<char>::empty()
    })
    &&& str_views(n.data_fields@) == fields.drop_first()
    &&& checksum_field_ok(cp, n.checksum)
}

/// Tokenizes an NMEA-style sentence: cuts the lead character, the optional
/// `*`-introduced checksum, and the comma-separated fields, the first of
/// which is cut after two characters into talker and message type.
pub fn parse_nmea_sentence(sentence: &str) -> (r: Result<NmeaSentence, &'static str>)
    ensures
        r is Ok <==> nmea_start_ok(sentence@),
        r matches Ok(n) ==> nmea_fields_ok(sentence@, n),
        r matches Err(e) ==> e@ == "Sentence must start with '$', '!', or '/'"@,
{
    let n = sentence.unicode_len();
    if n == 0 {
        return Err("Sentence must start with '$', '!', or '/'");
    }
    let sentence_type = sentence.get_char(0);
    if sentence_type != '$' && sentence_type != '!' && sentence_type != '/' {
        return Err("Sentence must start with '$', '!', or '/'");
    }
    let content = sentence.substring_char(1, n);
    proof {
        assert(content@ =~= sentence@.drop_first());
    }
    let (dp, cp) = split_once_str(content, '*');
    let fields = split_str(dp.as_str(), ',');
    let mt = fields[0].as_str();
    proof {
        assert(mt@ == str_views(fields@)[0]);
    }
    let mtn = mt.unicode_len();
    let (talker_id, message_type) = if mtn >= 2 {
        let t = mt.substring_char(0, 2).to_owned();
        let m = mt.substring_char(2, mtn).to_owned();
        proof {
            assert(t@ =~= mt@.take(2));
            assert(m@ =~= mt@.skip(2));
        }
        (t, m)
    } else {
        (String::new(), String::new())
    };
    let data_fields = tail_strings(&fields, 1);
    proof {
        assert(str_views(fields@).skip(1) =~= str_views(fields@).drop_first());
    }
    let checksum = match cp {
        Some(cs) => {
            let csn = cs.as_str().unicode_len();
            if csn >= 2 {
                let c = cs.as_str().substring_char(0, 2).to_owned();
                proof {
                    assert(c@ =~= cs@.take(2));
                }
                Some(c)
            } else {
                None
            }
        },
        None => None,
    };
    Ok(NmeaSentence { sentence_type, talker_id, message_type, data_fields, checksum })
}

/// The value of the last `<tag>:`-prefixed part, with the prefix cut away;
/// later parts override earlier ones, as repeated assignment does.
pub open spec fn tagged_value(parts: Seq<Seq<char>>, tag: char) -> Option<Seq<char>>
    decreases parts.len(),
{
    if parts.len() == 0 {
        None
    } else {
        let l = parts.last();
        if l.len() >= 2 && l[0] == tag && l[1] == ':' {
            Some(l.skip(2))
        } else {
            tagged_value(parts.drop_last(), tag)
        }
    }
}

/// How a parsed Inmarsat header relates to its text: the first
/// comma-separated part names the group, and the later parts are scanned
/// for `s:`, `n:` and `c:` prefixes.
pub open spec fn inmarsat_header_fields_ok(s: Seq<char>, h: InmarsatHeader) -> bool {
    let parts = split_chars(s, ',');
    &&& h.group_id@ == parts[0]
    &&& option_view(h.station_id) == tagged_value(parts.drop_first(), 's')
    &&& option_view(h.sequence_number) == tagged_value(parts.drop_first(), 'n')
    &&& option_view(h.timestamp) == tagged_value(parts.drop_first(), 'c')
}

/// Tokenizes an Inmarsat-C routing header. Splitting always yields at least
/// the group field, so every input is accepted.
pub fn parse_inmarsat_header(header: &str) -> (r: Result<InmarsatHeader, &'static str>)
    ensures
        r matches Ok(h) && inmarsat_header_fields_ok(header@, h),
{
    let parts = split_str(header, ',');
    let group_id = parts[0].clone();
    let mut sequence_number: Option<String> = None;
    let mut station_id: Option<String> = None;
    let mut timestamp: Option<String> = None;
    let mut i: usize = 1;
    proof {
        assert(str_views(parts@).subrange(1, 1).len() == 0);
    }
    while i < parts.len()
        invariant
            1 <= i <= parts@.len(),
            str_views(parts@) == split_chars(header@, ','),
            option_view(station_id) == tagged_value(str_views(parts@).subrange(1, i as int), 's'),
            option_view(sequence_number) == tagged_value(
                str_views(parts@).subrange(1, i as int),
                'n',
            ),
            option_view(timestamp) == tagged_value(str_views(parts@).subrange(1, i as int), 'c'),
        decreases parts@.len() - i,
    {
        let part_str = parts[i].as_str();
        let pn = part_str.unicode_len();
        proof {
            assert(part_str@ == str_views(parts@)[i as int]);
        }
        if pn >= 2 && part_str.get_char(1) == ':' {
            let c0 = part_str.get_char(0);
            if c0 == 's' {
                let v = part_str.substring_char(2, pn).to_owned();
                proof {
                    assert(v@ =~= part_str@.skip(2));
                }
                station_id = Some(v);
            } else if c0 == 'n' {
                let v = part_str.substring_char(2, pn).to_owned();
                proof {
                    assert(v@ =~= part_str@.skip(2));
                }
                sequence_number = Some(v);
            } else if c0 == 'c' {
                let v = part_str.substring_char(2, pn).to_owned();
                proof {
                    assert(v@ =~= part_str@.skip(2));
                }
                timestamp = Some(v);
            }
        }
        proof {
            let big = str_views(parts@);
            let prev = big.subrange(1, i as int);
            let l = big[i as int];
            assert(big.subrange(1, i + 1) =~= prev.push(l));
            assert(prev.push(l).drop_last() =~= prev);
            assert(prev.push(l).last() == l);
        }
        i += 1;
    }
    proof {
        assert(str_views(parts@).subrange(1, parts@.len() as int) =~= str_views(
            parts@,
        ).drop_first());
    }
    Ok(InmarsatHeader { group_id, sequence_number, station_id, timestamp })
}

/// Whether a DSC sentence is well formed: a `$` lead, at least six fields
/// before the checksum cut, and `DSC` as the talker field.
pub open spec fn dsc_ok(s: Seq<char>) -> bool {
    let fields = split_chars(before_first(s.drop_first(), '*'), ',');
    &&& s.len() > 0 && s[0] == '$'
    &&& fields.len() >= 6
    &&& fields[0] == "DSC"@
}

/// How a parsed DSC sentence relates to its text: five named fields, the
/// rest verbatim, and the checksum rule.
pub open spec fn dsc_fields_ok(s: Seq<char>, m: DscMessage) -> bool {
    let content = s.drop_first();
    let dp = before_first(content, '*');
    let cp = after_first(content, '*');
    let fields = split_chars(dp, ',');
    &&& m.format_specifier@ == fields[1]
    &&& m.address@ == fields[2]
    &&& m.category@ == fields[3]
    &&& m.self_id@ == fields[4]
    &&& m.subsequent_communications@ == fields[5]
    &&& str_views(m.data_fields@) == fields.skip(6)
    &&& checksum_field_ok(cp, m.checksum)
}

/// Tokenizes a DSC sentence: a `$DSC` call with its five leading fields
/// named and the rest kept in order.
pub fn parse_dsc_message(message: &str) -> (r: Result<DscMessage, &'static str>)
    ensures
        r is Ok <==> dsc_ok(message@),
        r matches Ok(m) ==> dsc_fields_ok(message@, m),
        message@.len() == 0 || message@[0] != '$' ==> (r matches Err(e) && e@
            == "DSC message must start with '$'"@),
        message@.len() > 0 && message@[0] == '$' && split_chars(
            before_first(message@.drop_first(), '*'),
            ',',
        ).len() < 6 ==> (r matches Err(e) && e@ == "DSC message must have at least 6 fields"@),
        message@.len() > 0 && message@[0] == '$' && split_chars(
            before_first(message@.drop_first(), '*'),
            ',',
        ).len() >= 6 && split_chars(before_first(message@.drop_first(), '*'), ',')[0] != "DSC"@
            ==> (r matches Err(e) && e@ == "DSC message must have 'DSC' as talker ID"@),
{
    let n = message.unicode_len();
    if n == 0 {
        return Err("DSC message must start with '$'");
    }
    if message.get_char(0) != '$' {
        return Err("DSC message must start with '$'");
    }
    let content = message.substring_char(1, n);
    proof {
        assert(content@ =~= message@.drop_first());
    }
    let (dp, cp) = split_once_str(content, '*');
    let fields = split_str(dp.as_str(), ',');
    if fields.len() < 6 {
        return Err("DSC message must have at least 6 fields");
    }
    proof {
        assert(fields@[0]@ == str_views(fields@)[0]);
    }
    if !str_eq(fields[0].as_str(), "DSC") {
        return Err("DSC message must have 'DSC' as talker ID");
    }
    let format_specifier = fields[1].clone();
    let address = fields[2].clone();
    let category = fields[3].clone();
    let self_id = fields[4].clone();
    let subsequent_communications = fields[5].clone();
    let data_fields = tail_strings(&fields, 6);
    let checksum = match cp {
        Some(cs) => {
            let csn = cs.as_str().unicode_len();
            if csn >= 2 {
                let c = cs.as_str().substring_char(0, 2).to_owned();
                proof {
                    assert(c@ =~= cs@.take(2));
                }
                Some(c)
            } else {
                None
            }
        },
        None => None,
    };
    proof {
        assert(fields@[1]@ == str_views(fields@)[1]);
        assert(fields@[2]@ == str_views(fields@)[2]);
        assert(fields@[3]@ == str_views(fields@)[3]);
        assert(fields@[4]@ == str_views(fields@)[4]);
        assert(fields@[5]@ == str_views(fields@)[5]);
    }
    Ok(
        DscMessage {
            format_specifier,
            address,
            category,
            self_id,
            subsequent_communications,
            data_fields,
            checksum,
        },
    )
}

/// Whether an Inmarsat-C message is well formed: it holds a `/` separating
/// header from payload.
pub open spec fn inmarsat_ok(s: Seq<char>) -> bool {
    after_first(s, '/') is Some
}

/// How a parsed Inmarsat-C message relates to its text: the header is
/// tokenized from what stands before the first `/`, and the payload from
/// what stands after it with the `/` put back in front.
pub open spec fn inmarsat_fields_ok(s: Seq<char>, m: InmarsatMessage) -> bool {
    &&& inmarsat_header_fields_ok(before_first(s, '/'), m.header)
    &&& (after_first(s, '/') matches Some(pp) && nmea_fields_ok(seq!['/'] + pp, m.payload))
}

/// Tokenizes an Inmarsat-C message: header before the first `/`, an
/// NMEA-style payload after it.
pub fn parse_inmarsat_message(message: &str) -> (r: Result<InmarsatMessage, &'static str>)
    ensures
        r is Ok <==> inmarsat_ok(message@),
        r matches Ok(m) ==> inmarsat_fields_ok(message@, m),
        r matches Err(e) ==> e@ == "Invalid Inmarsat message format"@,
{
    let (header_part, payload_part) = match split_once_str(message, '/') {
        (h, Some(p)) => (h, p),
        (_, None) => {
            return Err("Invalid Inmarsat message format");
        },
    };
    let header = match parse_inmarsat_header(header_part.as_str()) {
        Ok(h) => h,
        Err(e) => {
            return Err(e);
        },
    };
    let mut payload_text = String::from_str("/");
    payload_text.append(payload_part.as_str());
    proof {
        reveal_strlit("/");
        assert(payload_text@ =~= seq!['/'] + payload_part@);
        assert(payload_text@[0] == '/');
    }
    let payload = match parse_nmea_sentence(payload_text.as_str()) {
        Ok(p) => p,
        Err(e) => {
            return Err(e);
        },
    };
    Ok(InmarsatMessage { header, payload })
}

/// Whether a `$STALK` sentence is well formed for tokenizing: a `$` lead
/// and a `*`-introduced checksum.
pub open spec fn seatalk_sentence_ok(s: Seq<char>) -> bool {
    s.len() > 0 && s[0] == '$' && after_first(s.drop_first(), '*') is Some
}

/// How a tokenized `$STALK` sentence relates to its text: the fields after
/// the first, and the whole checksum text after the `*`.
pub open spec fn seatalk_sentence_fields_ok(s: Seq<char>, m: SeatalkMessage) -> bool {
    let content = s.drop_first();
    &&& str_views(m.data_fields@) == split_chars(before_first(content, '*'), ',').drop_first()
    &&& (after_first(content, '*') matches Some(cs) && m.checksum@ == cs)
}

/// Tokenizes a `$STALK` sentence without decoding its payload: the
/// comma-separated fields after the first, and the checksum after the `*`.
pub fn parse_seatalk_message(message: &str) -> (r: Result<SeatalkMessage, &'static str>)
    ensures
        r is Ok <==> seatalk_sentence_ok(message@),
        r matches Ok(m) ==> seatalk_sentence_fields_ok(message@, m),
        message@.len() == 0 || message@[0] != '$' ==> (r matches Err(e) && e@
            == "SeaTalk sentence must start with '$'"@),
        message@.len() > 0 && message@[0] == '$' && after_first(message@.drop_first(), '*')
            is None ==> (r matches Err(e) && e@ == "Invalid SeaTalk sentence format"@),
{
    let n = message.unicode_len();
    if n == 0 {
        return Err("SeaTalk sentence must start with '$'");
    }
    if message.get_char(0) != '$' {
        return Err("SeaTalk sentence must start with '$'");
    }
    let content = message.substring_char(1, n);
    proof {
        assert(content@ =~= message@.drop_first());
    }
    let (dp, cp) = split_once_str(content, '*');
    let checksum = match cp {
        Some(cs) => cs,
        None => {
            return Err("Invalid SeaTalk sentence format");
        },
    };
    let fields = split_str(dp.as_str(), ',');
    let data_fields = tail_strings(&fields, 1);
    proof {
        assert(str_views(fields@).skip(1) =~= str_views(fields@).drop_first());
    }
    Ok(SeatalkMessage { data_fields, checksum })
}

proof fn lemma_not_dollar_prefixes(s: Seq<char>)
    requires
        s.len() == 0 || s[0] != '$',
    ensures
        !chars_prefix(s, "$STALK"@),
        !chars_prefix(s, "$DSC"@),
{
    reveal_strlit("$STALK");
    reveal_strlit("$DSC");
    if chars_prefix(s, "$STALK"@) {
        assert(s.subrange(0, "$STALK"@.len() as int)[0] == s[0]);
    }
    if chars_prefix(s, "$DSC"@) {
        assert(s.subrange(0, "$DSC"@.len() as int)[0] == s[0]);
    }
}

/// Which parse a sentence is routed to, and whether that parse accepts it.
pub open spec fn detect_ok(s: Seq<char>) -> bool {
    if chars_prefix(s, "$STALK"@) {
        seatalk_sentence_ok(s)
    } else if chars_prefix(s, "$DSC"@) {
        dsc_ok(s)
    } else {
        nmea_start_ok(s)
    }
}

/// Routes a sentence to the parser its opening characters select: `$STALK`
/// to the Seatalk tokenizer, `$DSC` to the DSC parser, any other `$` to the
/// NMEA tokenizer, `!` to the same tokenizer as AIS, and `/` to the
/// Inmarsat-C parser.
pub fn detect_and_parse_message(message: &str) -> (r: Result<MessageType, &'static str>)
    ensures
        r is Ok <==> detect_ok(message@),
        chars_prefix(message@, "$STALK"@) && seatalk_sentence_ok(message@) ==> (r matches Ok(
            MessageType::Seatalk(m),
        ) && seatalk_sentence_fields_ok(message@, m)),
        !chars_prefix(message@, "$STALK"@) && chars_prefix(message@, "$DSC"@) && dsc_ok(message@)
            ==> (r matches Ok(MessageType::Dsc(m)) && dsc_fields_ok(message@, m)),
        !chars_prefix(message@, "$STALK"@) && !chars_prefix(message@, "$DSC"@) && message@.len()
            > 0 && message@[0] == '$' ==> (r matches Ok(MessageType::Nmea(m)) && nmea_fields_ok(
            message@,
            m,
        )),
        message@.len() > 0 && message@[0] == '!' ==> (r matches Ok(MessageType::Ais(m))
            && nmea_fields_ok(message@, m)),
        message@.len() > 0 && message@[0] == '/' ==> (r matches Ok(MessageType::Inmarsat(m))
            && inmarsat_fields_ok(message@, m)),
        !nmea_start_ok(message@) ==> (r matches Err(e) && e@ == "Unknown message format"@),
{
    let n = message.unicode_len();
    if n > 0 && message.get_char(0) == '$' {
        if has_prefix(message, "$STALK") {
            proof {
                reveal_strlit("$STALK");
            }
            match parse_seatalk_message(message) {
                Ok(m) => Ok(MessageType::Seatalk(m)),
                Err(e) => Err(e),
            }
        } else if has_prefix(message, "$DSC") {
            proof {
                reveal_strlit("$DSC");
            }
            match parse_dsc_message(message) {
                Ok(m) => Ok(MessageType::Dsc(m)),
                Err(e) => Err(e),
            }
        } else {
            match parse_nmea_sentence(message) {
                Ok(m) => Ok(MessageType::Nmea(m)),
                Err(e) => Err(e),
            }
        }
    } else if n > 0 && message.get_char(0) == '!' {
        proof {
            lemma_not_dollar_prefixes(message@);
        }
        match parse_nmea_sentence(message) {
            Ok(m) => Ok(MessageType::Ais(m)),
            Err(e) => Err(e),
        }
    } else if n > 0 && message.get_char(0) == '/' {
        proof {
            lemma_not_dollar_prefixes(message@);
            assert(after_first(message@, '/') is Some);
        }
        match parse_inmarsat_message(message) {
            Ok(m) => Ok(MessageType::Inmarsat(m)),
            Err(e) => Err(e),
        }
    } else {
        proof {
            lemma_not_dollar_prefixes(message@);
        }
        Err("Unknown message format")
    }
}

} // verus!
