//! Stored signals and trades: the texts a repository keeps for each field,
//! and the conversions from a stored row back to the entity.  A row that
//! cannot be read gives the message of the first field that fails.
use crate::clock::{instant_from_text, uuid_text_from};
use crate::decimal::decimal_from_text;
use crate::entities::{
    ExchangeId, PositionSide, Signal, SignalStatus, SignalStrength, SignalType, Trade,
    TradeCloseReason, TradeDirection,
};
use crate::json::{get, json_error_text, json_parse, member, parse_json_or_error, JsonValue};
use crate::records::{
    dec_err, exchange_of, instant_err, name_err, opt_dec_err, opt_dec_is, opt_instant_err,
    opt_instant_is, opt_uuid_err, opt_uuid_is, or_else, parse_exchange_id, parse_position_side,
    position_side_of, read_dec, read_instant, read_opt_dec, read_opt_instant, read_opt_uuid,
    read_uuid, uuid_err, with_label,
};
use crate::text::text_is;
use vstd::prelude::*;
use vstd::string::*;

verus! {

// ---------------------------------------------------------------------------
// Stored texts of the signal enumerations.

/// The direction a stored text names.
pub open spec fn direction_of(s: Seq<char>) -> Option<TradeDirection> {
    if s == "long"@ {
        Some(TradeDirection::Long)
    } else if s == "short"@ {
        Some(TradeDirection::Short)
    } else {
        None
    }
}

/// Reads a signal direction from its stored text.
pub fn parse_direction(s: &str) -> (r: Result<TradeDirection, String>)
    ensures
        match direction_of(s@) {
            Some(x) => r == Ok::<TradeDirection, String>(x),
            None => r matches Err(e) && e@ == "Invalid direction: "@ + s@,
        },
{
    if text_is(s, "long") {
        Ok(TradeDirection::Long)
    } else if text_is(s, "short") {
        Ok(TradeDirection::Short)
    } else {
        Err(with_label("Invalid direction: ", s.to_string()))
    }
}

/// The strength a stored text names.
pub open spec fn strength_of(s: Seq<char>) -> Option<SignalStrength> {
    if s == "weak"@ {
        Some(SignalStrength::Weak)
    } else if s == "moderate"@ {
        Some(SignalStrength::Moderate)
    } else if s == "strong"@ {
        Some(SignalStrength::Strong)
    } else {
        None
    }
}

/// Reads a signal strength from its stored text.
pub fn parse_strength(s: &str) -> (r: Result<SignalStrength, String>)
    ensures
        match strength_of(s@) {
            Some(x) => r == Ok::<SignalStrength, String>(x),
            None => r matches Err(e) && e@ == "Invalid strength: "@ + s@,
        },
{
    if text_is(s, "weak") {
        Ok(SignalStrength::Weak)
    } else if text_is(s, "moderate") {
        Ok(SignalStrength::Moderate)
    } else if text_is(s, "strong") {
        Ok(SignalStrength::Strong)
    } else {
        Err(with_label("Invalid strength: ", s.to_string()))
    }
}

/// The status a stored text names.
pub open spec fn signal_status_of(s: Seq<char>) -> Option<SignalStatus> {
    if s == "active"@ {
        Some(SignalStatus::Active)
    } else if s == "awaiting_confirmation"@ {
        Some(SignalStatus::AwaitingConfirmation)
    } else if s == "confirmed"@ {
        Some(SignalStatus::Confirmed)
    } else if s == "executed"@ {
        Some(SignalStatus::Executed)
    } else if s == "expired"@ {
        Some(SignalStatus::Expired)
    } else if s == "cancelled"@ {
        Some(SignalStatus::Cancelled)
    } else {
        None
    }
}

/// Reads a signal status from its stored text.
pub fn parse_status(s: &str) -> (r: Result<SignalStatus, String>)
    ensures
        match signal_status_of(s@) {
            Some(x) => r == Ok::<SignalStatus, String>(x),
            None => r matches Err(e) && e@ == "Invalid status: "@ + s@,
        },
{
    if text_is(s, "active") {
        Ok(SignalStatus::Active)
    } else if text_is(s, "awaiting_confirmation") {
        Ok(SignalStatus::AwaitingConfirmation)
    } else if text_is(s, "confirmed") {
        Ok(SignalStatus::Confirmed)
    } else if text_is(s, "executed") {
        Ok(SignalStatus::Executed)
    } else if text_is(s, "expired") {
        Ok(SignalStatus::Expired)
    } else if text_is(s, "cancelled") {
        Ok(SignalStatus::Cancelled)
    } else {
        Err(with_label("Invalid status: ", s.to_string()))
    }
}

/// The stored text of a direction.
pub open spec fn direction_text(d: TradeDirection) -> Seq<char> {
    match d {
        TradeDirection::Long => "long"@,
        TradeDirection::Short => "short"@,
    }
}

/// The stored text of a direction.
pub fn direction_to_string(d: TradeDirection) -> (r: String)
    ensures
        r@ == direction_text(d),
{
    match d {
        TradeDirection::Long => "long".to_string(),
        TradeDirection::Short => "short".to_string(),
    }
}

/// The stored text of a strength.
pub open spec fn strength_text(s: SignalStrength) -> Seq<char> {
    match s {
        SignalStrength::Weak => "weak"@,
        SignalStrength::Moderate => "moderate"@,
        SignalStrength::Strong => "strong"@,
    }
}

/// The stored text of a strength.
pub fn strength_to_string(s: SignalStrength) -> (r: String)
    ensures
        r@ == strength_text(s),
{
    match s {
        SignalStrength::Weak => "weak".to_string(),
        SignalStrength::Moderate => "moderate".to_string(),
        SignalStrength::Strong => "strong".to_string(),
    }
}

/// The stored text of a signal status.
pub open spec fn signal_status_text(s: SignalStatus) -> Seq<char> {
    match s {
        SignalStatus::Active => "active"@,
        SignalStatus::AwaitingConfirmation => "awaiting_confirmation"@,
        SignalStatus::Confirmed => "confirmed"@,
        SignalStatus::Executed => "executed"@,
        SignalStatus::Expired => "expired"@,
        SignalStatus::Cancelled => "cancelled"@,
    }
}

/// The stored text of a signal status.
pub fn status_to_string(s: SignalStatus) -> (r: String)
    ensures
        r@ == signal_status_text(s),
{
    match s {
        SignalStatus::Active => "active".to_string(),
        SignalStatus::AwaitingConfirmation => "awaiting_confirmation".to_string(),
        SignalStatus::Confirmed => "confirmed".to_string(),
        SignalStatus::Executed => "executed".to_string(),
        SignalStatus::Expired => "expired".to_string(),
        SignalStatus::Cancelled => "cancelled".to_string(),
    }
}

/// A signal's direction, strength and status read back from their stored
/// texts are what was written.
pub proof fn law_signal_texts_round_trip(d: TradeDirection, g: SignalStrength, s: SignalStatus)
    ensures
        direction_of(direction_text(d)) == Some(d),
        strength_of(strength_text(g)) == Some(g),
        signal_status_of(signal_status_text(s)) == Some(s),
{
    reveal_strlit("long");
    reveal_strlit("short");
    reveal_strlit("weak");
    reveal_strlit("moderate");
    reveal_strlit("strong");
    reveal_strlit("active");
    reveal_strlit("awaiting_confirmation");
    reveal_strlit("confirmed");
    reveal_strlit("executed");
    reveal_strlit("expired");
    reveal_strlit("cancelled");
    assert("long"@.len() == 4);
    assert("short"@.len() == 5);
    assert("weak"@.len() == 4);
    assert("moderate"@.len() == 8);
    assert("strong"@.len() == 6);
    assert("active"@.len() == 6);
    assert("awaiting_confirmation"@.len() == 21);
    assert("confirmed"@.len() == 9);
    assert("executed"@.len() == 8);
    assert("expired"@.len() == 7);
    assert("cancelled"@.len() == 9);
    assert("confirmed"@[1] != "cancelled"@[1]);
}

/// The signal type a JSON value holds: `{"Custom": {"name": .., "description": ..}}`,
/// the one kind of signal this library knows.
pub open spec fn signal_type_in(v: JsonValue) -> Option<SignalType> {
    match v {
        JsonValue::Object(members) => if members@.len() == 1 && members@[0].0@ == "Custom"@ {
            match (member(members@[0].1, "name"@), member(members@[0].1, "description"@)) {
                (Some(JsonValue::Text(n)), Some(JsonValue::Text(d))) => Some(
                    SignalType::Custom { name: n, description: d },
                ),
                _ => None,
            }
        } else {
            None
        },
        _ => None,
    }
}

/// The signal type a stored JSON text holds.
pub open spec fn signal_type_of(s: Seq<char>) -> Option<SignalType> {
    match json_parse(s) {
        Some(v) => signal_type_in(v),
        None => None,
    }
}

/// The message when a stored text is not a signal type: the JSON error, or
/// that the value is no known signal type.
pub open spec fn signal_type_err(s: Seq<char>) -> Option<Seq<char>> {
    match json_parse(s) {
        None => Some("Invalid signal type: "@ + json_error_text(s)),
        Some(v) => match signal_type_in(v) {
            Some(_) => None,
            None => Some("Invalid signal type: unknown signal type"@),
        },
    }
}

/// Reads a signal type from its stored JSON text.
pub fn parse_signal_type(s: &str) -> (r: Result<SignalType, String>)
    ensures
        match signal_type_err(s@) {
            Some(m) => r matches Err(e) && e@ == m,
            None => r matches Ok(t) && signal_type_of(s@) == Some(t),
        },
{
    let v = match parse_json_or_error(s) {
        Ok(v) => v,
        Err(e) => return Err(with_label("Invalid signal type: ", e)),
    };
    let unknown = "Invalid signal type: unknown signal type";
    match &v {
        JsonValue::Object(members) => {
            if members.len() != 1 || !text_is(members[0].0.as_str(), "Custom") {
                return Err(unknown.to_string());
            }
            let inner = &members[0].1;
            let name = get(inner, "name");
            let description = get(inner, "description");
            match (name, description) {
                (Some(JsonValue::Text(n)), Some(JsonValue::Text(d))) => Ok(
                    SignalType::Custom { name: n.clone(), description: d.clone() },
                ),
                _ => Err(unknown.to_string()),
            }
        },
        _ => Err(unknown.to_string()),
    }
}

/// The message when an optional stored text is present but not JSON.
pub open spec fn opt_json_err(text: Option<String>, label: Seq<char>) -> Option<Seq<char>> {
    match text {
        Some(t) => match json_parse(t@) {
            Some(_) => None,
            None => Some(label + json_error_text(t@)),
        },
        None => None,
    }
}

/// Checks that an optional stored text is JSON, and keeps it.
fn read_opt_json(text: &Option<String>, label: &str) -> (r: Result<Option<String>, String>)
    ensures
        match opt_json_err(*text, label@) {
            Some(m) => r matches Err(e) && e@ == m,
            None => r == Ok::<Option<String>, String>(*text),
        },
{
    match text {
        Some(t) => match parse_json_or_error(t.as_str()) {
            Ok(_) => Ok(Some(t.clone())),
            Err(e) => Err(with_label(label, e)),
        },
        None => Ok(None),
    }
}

// ---------------------------------------------------------------------------
// Stored signals.

/// A signal as the `signals` table stores it.
#[derive(Debug, Clone)]
pub struct SignalRecord {
    pub id: String,
    pub strategy_id: String,
    pub strategy_name: String,
    pub symbol: String,
    pub signal_type: String,
    pub direction: String,
    pub strength: String,
    pub trigger_price: String,
    pub suggested_entry: Option<String>,
    pub suggested_stop_loss: Option<String>,
    pub suggested_take_profit: Option<String>,
    pub risk_reward_ratio: Option<String>,
    pub reason: String,
    pub confidence: i64,
    pub status: String,
    pub requires_confirmation: i64,
    pub metadata: Option<String>,
    pub generated_at: String,
    pub expires_at: String,
    pub confirmed_at: Option<String>,
    pub executed_at: Option<String>,
}

/// The message of the first field of a stored signal that cannot be read,
/// in the order of the fields.
pub open spec fn signal_record_error(row: SignalRecord) -> Option<Seq<char>> {
    or_else(uuid_err(row.id@, "Invalid signal id: "@),
    or_else(signal_type_err(row.signal_type@),
    or_else(name_err(direction_of(row.direction@), "Invalid direction: "@, row.direction@),
    or_else(name_err(strength_of(row.strength@), "Invalid strength: "@, row.strength@),
    or_else(dec_err(row.trigger_price@, "Invalid trigger price: "@),
    or_else(opt_dec_err(row.suggested_entry, "Invalid suggested entry: "@),
    or_else(opt_dec_err(row.suggested_stop_loss, "Invalid suggested stop loss: "@),
    or_else(opt_dec_err(row.suggested_take_profit, "Invalid suggested take profit: "@),
    or_else(opt_dec_err(row.risk_reward_ratio, "Invalid risk reward ratio: "@),
    or_else(name_err(signal_status_of(row.status@), "Invalid status: "@, row.status@),
    or_else(opt_json_err(row.metadata, "Invalid metadata: "@),
    or_else(instant_err(row.generated_at@, "Invalid generated_at: "@),
    or_else(instant_err(row.expires_at@, "Invalid expires_at: "@),
    or_else(opt_instant_err(row.confirmed_at, "Invalid confirmed_at: "@),
    opt_instant_err(row.executed_at, "Invalid executed_at: "@)))))))))))))))
}

/// A signal holds what its stored row says; the confidence keeps the low
/// byte of the stored number, and any nonzero flag requires confirmation.
pub open spec fn signal_read(row: SignalRecord, s: Signal) -> bool {
    &&& uuid_text_from(row.id@) == Some(s.id@)
    &&& s.strategy_id == row.strategy_id
    &&& s.strategy_name == row.strategy_name
    &&& s.symbol == row.symbol
    &&& signal_type_of(row.signal_type@) == Some(s.signal_type)
    &&& direction_of(row.direction@) == Some(s.direction)
    &&& strength_of(row.strength@) == Some(s.strength)
    &&& decimal_from_text(row.trigger_price@) == Some(s.trigger_price.repr())
    &&& opt_dec_is(row.suggested_entry, s.suggested_entry)
    &&& opt_dec_is(row.suggested_stop_loss, s.suggested_stop_loss)
    &&& opt_dec_is(row.suggested_take_profit, s.suggested_take_profit)
    &&& opt_dec_is(row.risk_reward_ratio, s.risk_reward_ratio)
    &&& s.reason == row.reason
    &&& s.confidence == row.confidence as u8
    &&& signal_status_of(row.status@) == Some(s.status)
    &&& s.requires_confirmation == (row.requires_confirmation != 0)
    &&& s.metadata == row.metadata
    &&& instant_from_text(row.generated_at@) == Some(s.generated_at)
    &&& instant_from_text(row.expires_at@) == Some(s.expires_at)
    &&& opt_instant_is(row.confirmed_at, s.confirmed_at)
    &&& opt_instant_is(row.executed_at, s.executed_at)
}

/// Reads a signal back from its stored row: the message of the first
/// field that cannot be read, or the signal.
pub fn signal_from_record(row: SignalRecord) -> (r: Result<Signal, String>)
    ensures
        match signal_record_error(row) {
            Some(m) => r matches Err(e) && e@ == m,
            None => r matches Ok(s) && signal_read(row, s),
        },
{
    let id = match read_uuid(row.id.as_str(), "Invalid signal id: ") {
        Ok(v) => v,
        Err(e) => return Err(e),
    };
    let signal_type = match parse_signal_type(row.signal_type.as_str()) {
        Ok(v) => v,
        Err(e) => return Err(e),
    };
    let direction = match parse_direction(row.direction.as_str()) {
        Ok(v) => v,
        Err(e) => return Err(e),
    };
    let strength = match parse_strength(row.strength.as_str()) {
        Ok(v) => v,
        Err(e) => return Err(e),
    };
    let trigger_price = match read_dec(row.trigger_price.as_str(), "Invalid trigger price: ") {
        Ok(v) => v,
        Err(e) => return Err(e),
    };
    let suggested_entry = match read_opt_dec(&row.suggested_entry, "Invalid suggested entry: ") {
        Ok(v) => v,
        Err(e) => return Err(e),
    };
    let suggested_stop_loss = match read_opt_dec(
        &row.suggested_stop_loss,
        "Invalid suggested stop loss: ",
    ) {
        Ok(v) => v,
        Err(e) => return Err(e),
    };
    let suggested_take_profit = match read_opt_dec(
        &row.suggested_take_profit,
        "Invalid suggested take profit: ",
    ) {
        Ok(v) => v,
        Err(e) => return Err(e),
    };
    let risk_reward_ratio = match read_opt_dec(&row.risk_reward_ratio, "Invalid risk reward ratio: ") {
        Ok(v) => v,
        Err(e) => return Err(e),
    };
    let status = match parse_status(row.status.as_str()) {
        Ok(v) => v,
        Err(e) => return Err(e),
    };
    let metadata = match read_opt_json(&row.metadata, "Invalid metadata: ") {
        Ok(v) => v,
        Err(e) => return Err(e),
    };
    let generated_at = match read_instant(row.generated_at.as_str(), "Invalid generated_at: ") {
        Ok(v) => v,
        Err(e) => return Err(e),
    };
    let expires_at = match read_instant(row.expires_at.as_str(), "Invalid expires_at: ") {
        Ok(v) => v,
        Err(e) => return Err(e),
    };
    let confirmed_at = match read_opt_instant(&row.confirmed_at, "Invalid confirmed_at: ") {
        Ok(v) => v,
        Err(e) => return Err(e),
    };
    let executed_at = match read_opt_instant(&row.executed_at, "Invalid executed_at: ") {
        Ok(v) => v,
        Err(e) => return Err(e),
    };
    Ok(
        Signal {
            id,
            strategy_id: row.strategy_id,
            strategy_name: row.strategy_name,
            symbol: row.symbol,
            signal_type,
            direction,
            strength,
            trigger_price,
            suggested_entry,
            suggested_stop_loss,
            suggested_take_profit,
            risk_reward_ratio,
            reason: row.reason,
            confidence: row.confidence as u8,
            status,
            requires_confirmation: row.requires_confirmation != 0,
            metadata,
            generated_at,
            expires_at,
            confirmed_at,
            executed_at,
        },
    )
}

// ---------------------------------------------------------------------------
// Stored trades.

/// The close reason a JSON value holds: the name of a reason without
/// data, or `{"Manual": {"nota": ..}}` with an optional note.
pub open spec fn close_reason_in(v: JsonValue) -> Option<TradeCloseReason> {
    match v {
        JsonValue::Text(t) => if t@ == "StopLoss"@ {
            Some(TradeCloseReason::StopLoss)
        } else if t@ == "TakeProfit"@ {
            Some(TradeCloseReason::TakeProfit)
        } else if t@ == "TrailingStop"@ {
            Some(TradeCloseReason::TrailingStop)
        } else if t@ == "Liquidation"@ {
            Some(TradeCloseReason::Liquidation)
        } else if t@ == "Signal"@ {
            Some(TradeCloseReason::Signal)
        } else {
            None
        },
        JsonValue::Object(members) => if members@.len() == 1 && members@[0].0@ == "Manual"@ {
            match member(members@[0].1, "nota"@) {
                None => if members@[0].1 is Object {
                    Some(TradeCloseReason::Manual { nota: None })
                } else {
                    None
                },
                Some(JsonValue::Null) => Some(TradeCloseReason::Manual { nota: None }),
                Some(JsonValue::Text(n)) => Some(TradeCloseReason::Manual { nota: Some(n) }),
                _ => None,
            }
        } else {
            None
        },
        _ => None,
    }
}

/// The close reason a stored JSON text holds.
pub open spec fn close_reason_of(s: Seq<char>) -> Option<TradeCloseReason> {
    match json_parse(s) {
        Some(v) => close_reason_in(v),
        None => None,
    }
}

/// The message when a stored text is not a close reason: the JSON error,
/// or that the value is no known close reason.
pub open spec fn close_reason_err(s: Seq<char>) -> Option<Seq<char>> {
    match json_parse(s) {
        None => Some("Invalid close reason: "@ + json_error_text(s)),
        Some(v) => match close_reason_in(v) {
            Some(_) => None,
            None => Some("Invalid close reason: unknown close reason"@),
        },
    }
}

/// Reads a close reason from its stored JSON text.
pub fn parse_close_reason(s: &str) -> (r: Result<TradeCloseReason, String>)
    ensures
        match close_reason_err(s@) {
            Some(m) => r matches Err(e) && e@ == m,
            None => r matches Ok(c) && close_reason_of(s@) == Some(c),
        },
{
    let v = match parse_json_or_error(s) {
        Ok(v) => v,
        Err(e) => return Err(with_label("Invalid close reason: ", e)),
    };
    let unknown = "Invalid close reason: unknown close reason";
    match &v {
        JsonValue::Text(t) => {
            if text_is(t.as_str(), "StopLoss") {
                Ok(TradeCloseReason::StopLoss)
            } else if text_is(t.as_str(), "TakeProfit") {
                Ok(TradeCloseReason::TakeProfit)
            } else if text_is(t.as_str(), "TrailingStop") {
                Ok(TradeCloseReason::TrailingStop)
            } else if text_is(t.as_str(), "Liquidation") {
                Ok(TradeCloseReason::Liquidation)
            } else if text_is(t.as_str(), "Signal") {
                Ok(TradeCloseReason::Signal)
            } else {
                Err(unknown.to_string())
            }
        },
        JsonValue::Object(members) => {
            if members.len() != 1 || !text_is(members[0].0.as_str(), "Manual") {
                return Err(unknown.to_string());
            }
            let inner = &members[0].1;
            match get(inner, "nota") {
                None => match inner {
                    JsonValue::Object(_) => Ok(TradeCloseReason::Manual { nota: None }),
                    _ => Err(unknown.to_string()),
                },
                Some(JsonValue::Null) => Ok(TradeCloseReason::Manual { nota: None }),
                Some(JsonValue::Text(n)) => Ok(TradeCloseReason::Manual { nota: Some(n.clone()) }),
                _ => Err(unknown.to_string()),
            }
        },
        _ => Err(unknown.to_string()),
    }
}

/// A trade as the `trades` table stores it.
#[derive(Debug, Clone)]
pub struct TradeRecord {
    pub id: String,
    pub exchange: String,
    pub symbol: String,
    pub side: String,
    pub position_id: String,
    pub signal_id: Option<String>,
    pub entry_order_id: String,
    pub exit_order_id: String,
    pub quantity: String,
    pub entry_price: String,
    pub exit_price: String,
    pub gross_pnl: String,
    pub total_fees: String,
    pub net_pnl: String,
    pub pnl_pct: String,
    pub roi_pct: String,
    pub leverage: i64,
    pub close_reason: String,
    pub duration_seconds: i64,
    pub entered_at: String,
    pub exited_at: String,
    pub metadata: Option<String>,
}

/// The message of the first field of a stored trade that cannot be read,
/// in the order of the fields.
pub open spec fn trade_record_error(row: TradeRecord) -> Option<Seq<char>> {
    or_else(uuid_err(row.id@, "Invalid trade id: "@),
    or_else(name_err(exchange_of(row.exchange@), "Unknown exchange: "@, row.exchange@),
    or_else(name_err(position_side_of(row.side@), "Invalid position side: "@, row.side@),
    or_else(uuid_err(row.position_id@, "Invalid position id: "@),
    or_else(opt_uuid_err(row.signal_id, "Invalid signal id: "@),
    or_else(uuid_err(row.entry_order_id@, "Invalid order id: "@),
    or_else(uuid_err(row.exit_order_id@, "Invalid order id: "@),
    or_else(dec_err(row.quantity@, "Invalid quantity: "@),
    or_else(dec_err(row.entry_price@, "Invalid entry price: "@),
    or_else(dec_err(row.exit_price@, "Invalid exit price: "@),
    or_else(dec_err(row.gross_pnl@, "Invalid gross pnl: "@),
    or_else(dec_err(row.total_fees@, "Invalid total fees: "@),
    or_else(dec_err(row.net_pnl@, "Invalid net pnl: "@),
    or_else(dec_err(row.pnl_pct@, "Invalid pnl pct: "@),
    or_else(dec_err(row.roi_pct@, "Invalid roi pct: "@),
    or_else(close_reason_err(row.close_reason@),
    or_else(instant_err(row.entered_at@, "Invalid entered_at: "@),
    or_else(instant_err(row.exited_at@, "Invalid exited_at: "@),
    opt_json_err(row.metadata, "Invalid metadata: "@)))))))))))))))))))
}

/// A trade holds what its stored row says; the leverage keeps the low 32
/// bits of the stored number.
pub open spec fn trade_read(row: TradeRecord, t: Trade) -> bool {
    &&& uuid_text_from(row.id@) == Some(t.id@)
    &&& exchange_of(row.exchange@) == Some(t.exchange)
    &&& t.symbol == row.symbol
    &&& position_side_of(row.side@) == Some(t.side)
    &&& uuid_text_from(row.position_id@) == Some(t.position_id@)
    &&& opt_uuid_is(row.signal_id, t.signal_id)
    &&& uuid_text_from(row.entry_order_id@) == Some(t.entry_order_id@)
    &&& uuid_text_from(row.exit_order_id@) == Some(t.exit_order_id@)
    &&& decimal_from_text(row.quantity@) == Some(t.quantity.repr())
    &&& decimal_from_text(row.entry_price@) == Some(t.entry_price.repr())
    &&& decimal_from_text(row.exit_price@) == Some(t.exit_price.repr())
    &&& decimal_from_text(row.gross_pnl@) == Some(t.gross_pnl.repr())
    &&& decimal_from_text(row.total_fees@) == Some(t.fees.repr())
    &&& decimal_from_text(row.net_pnl@) == Some(t.net_pnl.repr())
    &&& decimal_from_text(row.pnl_pct@) == Some(t.pnl_pct.repr())
    &&& decimal_from_text(row.roi_pct@) == Some(t.roi_pct.repr())
    &&& t.leverage == row.leverage as u32
    &&& close_reason_of(row.close_reason@) == Some(t.close_reason)
    &&& t.duration_seconds == row.duration_seconds
    &&& instant_from_text(row.entered_at@) == Some(t.entered_at)
    &&& instant_from_text(row.exited_at@) == Some(t.exited_at)
    &&& t.metadata == row.metadata
}

/// Reads a trade back from its stored row: the message of the first field
/// that cannot be read, or the trade.
pub fn trade_from_record(row: TradeRecord) -> (r: Result<Trade, String>)
    ensures
        match trade_record_error(row) {
            Some(m) => r matches Err(e) && e@ == m,
            None => r matches Ok(t) && trade_read(row, t),
        },
{
    let id = match read_uuid(row.id.as_str(), "Invalid trade id: ") {
        Ok(v) => v,
        Err(e) => return Err(e),
    };
    let exchange = match parse_exchange_id(row.exchange.as_str()) {
        Ok(v) => v,
        Err(e) => return Err(e),
    };
    let side = match parse_position_side(row.side.as_str()) {
        Ok(v) => v,
        Err(e) => return Err(e),
    };
    let position_id = match read_uuid(row.position_id.as_str(), "Invalid position id: ") {
        Ok(v) => v,
        Err(e) => return Err(e),
    };
    let signal_id = match read_opt_uuid(&row.signal_id, "Invalid signal id: ") {
        Ok(v) => v,
        Err(e) => return Err(e),
    };
    let entry_order_id = match read_uuid(row.entry_order_id.as_str(), "Invalid order id: ") {
        Ok(v) => v,
        Err(e) => return Err(e),
    };
    let exit_order_id = match read_uuid(row.exit_order_id.as_str(), "Invalid order id: ") {
        Ok(v) => v,
        Err(e) => return Err(e),
    };
    let quantity = match read_dec(row.quantity.as_str(), "Invalid quantity: ") {
        Ok(v) => v,
        Err(e) => return Err(e),
    };
    let entry_price = match read_dec(row.entry_price.as_str(), "Invalid entry price: ") {
        Ok(v) => v,
        Err(e) => return Err(e),
    };
    let exit_price = match read_dec(row.exit_price.as_str(), "Invalid exit price: ") {
        Ok(v) => v,
        Err(e) => return Err(e),
    };
    let gross_pnl = match read_dec(row.gross_pnl.as_str(), "Invalid gross pnl: ") {
        Ok(v) => v,
        Err(e) => return Err(e),
    };
    let fees = match read_dec(row.total_fees.as_str(), "Invalid total fees: ") {
        Ok(v) => v,
        Err(e) => return Err(e),
    };
    let net_pnl = match read_dec(row.net_pnl.as_str(), "Invalid net pnl: ") {
        Ok(v) => v,
        Err(e) => return Err(e),
    };
    let pnl_pct = match read_dec(row.pnl_pct.as_str(), "Invalid pnl pct: ") {
        Ok(v) => v,
        Err(e) => return Err(e),
    };
    let roi_pct = match read_dec(row.roi_pct.as_str(), "Invalid roi pct: ") {
        Ok(v) => v,
        Err(e) => return Err(e),
    };
    let close_reason = match parse_close_reason(row.close_reason.as_str()) {
        Ok(v) => v,
        Err(e) => return Err(e),
    };
    let entered_at = match read_instant(row.entered_at.as_str(), "Invalid entered_at: ") {
        Ok(v) => v,
        Err(e) => return Err(e),
    };
    let exited_at = match read_instant(row.exited_at.as_str(), "Invalid exited_at: ") {
        Ok(v) => v,
        Err(e) => return Err(e),
    };
    let metadata = match read_opt_json(&row.metadata, "Invalid metadata: ") {
        Ok(v) => v,
        Err(e) => return Err(e),
    };
    Ok(
        Trade {
            id,
            exchange,
            symbol: row.symbol,
            side,
            position_id,
            signal_id,
            entry_order_id,
            exit_order_id,
            quantity,
            entry_price,
            exit_price,
            fees,
            leverage: row.leverage as u32,
            gross_pnl,
            net_pnl,
            pnl_pct,
            roi_pct,
            close_reason,
            duration_seconds: row.duration_seconds,
            entered_at,
            exited_at,
            metadata,
        },
    )
}

} // verus!
