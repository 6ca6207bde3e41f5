//! The chat history page: every saved message, newest first, in a single
//! HTML file that pages and filters them by date in the browser.
use vstd::prelude::*;

use crate::text::{append_chars, chars_of, string_of};

verus! {

/// A saved message: when, who, and what.
pub struct ChatMessage {
    pub timestamp: String,
    pub role: String,
    pub content: String,
}

/// The escape of one character inside a single-quoted script string.
pub open spec fn js_escape_char(c: char) -> Seq<char> {
    if c == '\\' {
        "\\\\"@
    } else if c == '\'' {
        "\\'"@
    } else if c == '\n' {
        "\\n"@
    } else if c == '\r' {
        "\\r"@
    } else {
        seq![c]
    }
}

/// `s` made safe to stand between single quotes in a script: backslash,
/// quote, line feed and carriage return are escaped.
pub open spec fn escape_js_spec(s: Seq<char>) -> Seq<char>
    decreases s.len(),
{
    if s.len() == 0 {
        Seq::empty()
    } else {
        escape_js_spec(s.drop_last()) + js_escape_char(s.last())
    }
}

fn escape_into(out: &mut Vec<char>, s: &str)
    ensures
        final(out)@ == old(out)@ + escape_js_spec(s@),
{
    let v = chars_of(s);
    let mut i: usize = 0;
    while i < v.len()
        invariant
            i <= v.len(),
            v@ == s@,
            out@ == old(out)@ + escape_js_spec(v@.take(i as int)),
        decreases v.len() - i,
    {
        assert(v@.take(i + 1).drop_last() =~= v@.take(i as int));
        let c = v[i];
        if c == '\\' {
            append_chars(out, &chars_of("\\\\"));
        } else if c == '\'' {
            append_chars(out, &chars_of("\\'"));
        } else if c == '\n' {
            append_chars(out, &chars_of("\\n"));
        } else if c == '\r' {
            append_chars(out, &chars_of("\\r"));
        } else {
            out.push(c);
            assert(seq![c] =~= Seq::<char>::empty().push(c));
        }
        assert(old(out)@ + escape_js_spec(v@.take(i + 1)) =~= old(out)@ + escape_js_spec(v@.take(i as int)) + js_escape_char(c));
        i += 1;
    }
    assert(v@.take(v.len() as int) =~= v@);
}

pub fn escape_js(s: &str) -> (r: String)
    ensures
        r@ == escape_js_spec(s@),
{
    let mut out: Vec<char> = Vec::new();
    escape_into(&mut out, s);
    assert(Seq::<char>::empty() + escape_js_spec(s@) =~= escape_js_spec(s@));
    string_of(&out)
}

/// One message as a script object literal.
pub open spec fn message_entry(m: ChatMessage) -> Seq<char> {
    "{ts:'"@ + escape_js_spec(m.timestamp@) + "',role:'"@ + escape_js_spec(m.role@) + "',content:'"@
        + escape_js_spec(m.content@) + "'}"@
}

/// The messages as the items of a script array, separated by commas.
pub open spec fn message_entries(ms: Seq<ChatMessage>) -> Seq<char>
    decreases ms.len(),
{
    if ms.len() == 0 {
        Seq::empty()
    } else if ms.len() == 1 {
        message_entry(ms[0])
    } else {
        message_entries(ms.drop_last()) + ","@ + message_entry(ms.last())
    }
}

/// The avatar in the page header: the stored image, or a robot face.
pub open spec fn avatar_html_spec(avatar_data_uri: Seq<char>) -> Seq<char> {
    if avatar_data_uri.len() == 0 {
        "🤖"@
    } else {
        "<img src=\""@ + avatar_data_uri + "\" alt=\"avatar\">"@
    }
}

pub open spec fn history_page(ms: Seq<ChatMessage>, avatar_data_uri: Seq<char>) -> Seq<char> {
    "<!DOCTYPE html>\n<html lang=\"zh-CN\">\n<head>\n    <meta charset=\"UTF-8\">\n    <meta name=\"viewport\" content=\"width=device-width, initial-scale=1.0\">\n    <title>Pocket Agent - Chat History</title>\n    <style>\n        * { margin: 0; padding: 0; box-sizing: border-box; }\n        body {\n            font-family: -apple-system, BlinkMacSystemFont, 'Segoe UI', Roboto, sans-serif;\n            background: linear-gradient(135deg, #0a0a16 0%, #1a1a2e 100%);\n            color: #e8e8f0;\n            padding: 20px;\n            min-height: 100vh;\n        }\n        .container { max-width: 900px; margin: 0 auto; }\n\n        /* ── Header ── */\n        .header {\n            display: flex; justify-content: space-between; align-items: center;\n            margin-bottom: 24px; padding-bottom: 16px;\n            border-bottom: 1px solid rgba(160, 168, 255, 0.2);\n            position: sticky; top: 0; z-index: 100;\n            background: linear-gradient(135deg, #0a0a16 0%, #1a1a2e 100%);\n            padding-top: 4px;\n        }\n        .header h1 { font-size: 24px; font-weight: 600; }\n        .search-box { display: flex; gap: 10px; }\n        .search-box input {\n            padding: 8px 16px; border-radius: 8px;\n            border: 1px solid rgba(160, 168, 255, 0.3);\n            background: rgba(255, 255, 255, 0.05);\n            color: #e8e8f0; font-size: 14px; width: 250px;\n        }\n        .search-box input::placeholder { color: rgba(232, 232, 240, 0.4); }\n        .search-box input:focus {\n            outline: none; border-color: rgba(160, 168, 255, 0.6);\n            background: rgba(255, 255, 255, 0.08);\n        }\n\n        .month-picker {\n            padding: 7px 10px; border-radius: 8px;\n            border: 1px solid rgba(160, 168, 255, 0.3);\n            background: rgba(255, 255, 255, 0.05);\n            color: #e8e8f0; font-size: 13px;\n            cursor: pointer; color-scheme: dark;\n        }\n        .month-picker:focus {\n            outline: none; border-color: rgba(160, 168, 255, 0.6);\n        }\n        .month-picker::-webkit-calendar-picker-indicator {\n            filter: invert(0.8); cursor: pointer;\n        }\n\n        /* Calendar day grid */\n        .calendar-grid {\n            display: grid;\n            grid-template-columns: repeat(7, 1fr);\n            gap: 4px;\n            margin: 8px 0 4px;\n        }\n        .calendar-wrap {\n            overflow: hidden;\n            transition: max-height 0.2s ease;\n        }\n        .calendar-wrap.collapsed {\n            max-height: 0;\n        }\n        .calendar-wrap.expanded {\n            max-height: 300px;\n        }\n        .cal-toggle {\n            display: inline-flex; align-items: center; gap: 4px;\n            padding: 4px 12px; border-radius: 6px;\n            border: 1px solid rgba(160, 168, 255, 0.2);\n            background: rgba(160, 168, 255, 0.06);\n            color: rgba(160, 168, 255, 0.7);\n            font-size: 12px; cursor: pointer;\n            transition: background 0.12s;\n        }\n        .cal-toggle:hover {\n            background: rgba(160, 168, 255, 0.14);\n        }\n        .cal-header {\n            text-align: center; font-size: 11px; font-weight: 600;\n            color: rgba(160, 168, 255, 0.5);\n            padding: 4px 0;\n        }\n        .cal-day {\n            height: 28px;\n            display: flex; align-items: center; justify-content: center;\n            border-radius: 8px; font-size: 13px;\n            cursor: default; user-select: none;\n            background: rgba(255, 255, 255, 0.03);\n            color: rgba(232, 232, 240, 0.2);\n            border: 1px solid transparent;\n            transition: all 0.12s;\n        }\n        .cal-day.has-msg {\n            background: rgba(124, 158, 255, 0.15);\n            color: rgba(160, 168, 255, 0.9);\n            border-color: rgba(124, 158, 255, 0.3);\n            cursor: pointer; font-weight: 600;\n        }\n        .cal-day.has-msg:hover {\n            background: rgba(124, 158, 255, 0.3);\n            border-color: rgba(124, 158, 255, 0.5);\n        }\n        .cal-day.selected {\n            background: rgba(124, 158, 255, 0.4);\n            border-color: rgba(124, 158, 255, 0.8);\n        }\n        .cal-day.empty {\n            background: transparent; border: none;\n        }\n\n        /* ── Messages ── */\n        .messages { display: flex; flex-direction: column; gap: 14px; }\n\n        /* ── Date separator ── */\n        .date-separator {\n            display: flex; align-items: center; gap: 12px;\n            margin: 20px 0 8px; padding: 0 20px;\n        }\n        .date-separator::before, .date-separator::after {\n            content: ''; flex: 1; height: 1px;\n            background: rgba(160, 168, 255, 0.15);\n        }\n        .date-separator span {\n            font-size: 13px; font-weight: 500;\n            color: rgba(160, 168, 255, 0.7);\n            white-space: nowrap;\n        }\n\n        /* ── Message row with avatar ── */\n        .message-row {\n            display: flex; gap: 10px; align-items: flex-start;\n            animation: fadeIn 0.2s ease-out;\n        }\n        .message-row.user { flex-direction: row-reverse; }\n\n        .avatar {\n            width: 36px; height: 36px; border-radius: 50%;\n            flex-shrink: 0; overflow: hidden;\n            display: flex; align-items: center; justify-content: center;\n            background: rgba(160, 168, 255, 0.12);\n            border: 1px solid rgba(160, 168, 255, 0.2);\n            font-size: 18px;\n        }\n        .avatar img { width: 100%; height: 100%; object-fit: cover; }\n\n        .message {\n            flex: 1; max-width: 72%;\n            padding: 12px 16px; border-radius: 14px;\n            border: 1px solid rgba(160, 168, 255, 0.2);\n            background: rgba(10, 10, 22, 0.6);\n        }\n        .message.user {\n            background: rgba(124, 158, 255, 0.1);\n            border-color: rgba(124, 158, 255, 0.3);\n            margin-right: 80px;\n        }\n        .message.assistant {\n            background: rgba(160, 168, 255, 0.08);\n            border-color: rgba(160, 168, 255, 0.2);\n            margin-left: 80px;\n        }\n        /* Override: with avatar layout, margins create the offset */\n        .message-row.assistant .message { margin-left: 0; margin-right: 80px; }\n        .message-row.user .message { margin-right: 0; margin-left: 80px; }\n\n        .message-header {\n            display: flex; justify-content: space-between; align-items: center;\n            margin-bottom: 6px; font-size: 11px;\n        }\n        .message-role { font-weight: 600; color: rgba(160, 168, 255, 0.9); text-transform: uppercase; }\n        .message-time { color: rgba(232, 232, 240, 0.45); }\n\n        .message-content {\n            font-size: 14px; line-height: 1.6;\n            color: rgba(232, 232, 240, 0.92);\n            word-break: break-word; white-space: pre-wrap;\n        }\n        .message-content a { color: rgba(124, 158, 255, 0.9); text-decoration: underline; }\n        .message-content a:hover { color: rgba(160, 168, 255, 1); }\n\n        @keyframes fadeIn {\n            from { opacity: 0; transform: translateY(8px); }\n            to   { opacity: 1; transform: translateY(0); }\n        }\n\n        /* ── Load more ── */\n        .empty { text-align: center; padding: 60px 20px; color: rgba(232, 232, 240, 0.4); }\n        .empty-icon { font-size: 48px; margin-bottom: 16px; }\n\n        .stats {\n            margin-top: 24px; padding: 12px 16px; border-radius: 8px;\n            background: rgba(160, 168, 255, 0.06);\n            border: 1px solid rgba(160, 168, 255, 0.15);\n            font-size: 12px; color: rgba(232, 232, 240, 0.6);\n            text-align: center;\n        }\n    </style>\n</head>\n<body>\n    <div class=\"container\">\n        <div class=\"header\">\n            <h1>Chat History</h1>\n            <div class=\"search-box\">\n                <input type=\"month\" class=\"month-picker\" id=\"monthPicker\">\n                <input type=\"text\" id=\"searchInput\" placeholder=\"Search messages...\">\n            </div>\n        </div>\n        <span class=\"cal-toggle\" id=\"calToggle\">Date Picker ▲</span>\n        <div class=\"calendar-wrap expanded\" id=\"calWrap\">\n            <div class=\"calendar-grid\" id=\"calendarGrid\"></div>\n            <hr style=\"border:none;border-top:1px solid rgba(160,168,255,0.15);margin:4px 0 16px;\">\n        </div>\n        <div class=\"messages\" id=\"messagesContainer\"></div>\n        <div class=\"stats\" id=\"statsBar\"></div>\n    </div>\n    <script>\n    (function() {\n        const ALL = ["@ + message_entries(ms) + "];\n        const AVATAR_HTML = `"@ + avatar_html_spec(avatar_data_uri) + "`;\n\n        function parseTs(ts) {\n            const d = new Date(ts);\n            const dateKey = d.getFullYear() + '-' +\n                String(d.getMonth()+1).padStart(2,'0') + '-' +\n                String(d.getDate()).padStart(2,'0');\n            const timeStr = String(d.getHours()).padStart(2,'0') + ':' +\n                String(d.getMinutes()).padStart(2,'0');\n            const weekdays = ['Sun','Mon','Tue','Wed','Thu','Fri','Sat'];\n            const months = ['Jan','Feb','Mar','Apr','May','Jun','Jul','Aug','Sep','Oct','Nov','Dec'];\n            let label = weekdays[d.getDay()] + ', ' + months[d.getMonth()] + ' ' + d.getDate();\n            const today = new Date();\n            const tk = today.getFullYear() + '-' + String(today.getMonth()+1).padStart(2,'0') + '-' + String(today.getDate()).padStart(2,'0');\n            const ys = new Date(today); ys.setDate(ys.getDate()-1);\n            const yk = ys.getFullYear() + '-' + String(ys.getMonth()+1).padStart(2,'0') + '-' + String(ys.getDate()).padStart(2,'0');\n            if (dateKey === tk) label = 'Today';\n            else if (dateKey === yk) label = 'Yesterday';\n            return { dateKey, timeStr, label, day: d.getDate(), monthKey: d.getFullYear()+'-'+String(d.getMonth()+1).padStart(2,'0') };\n        }\n\n        function sanitizeContent(html) {\n            const div = document.createElement('div');\n            div.innerHTML = html;\n            div.querySelectorAll('script').forEach(el => el.remove());\n            div.querySelectorAll('*').forEach(el => {\n                Array.from(el.attributes).forEach(a => {\n                    if (a.name.startsWith('on')) el.removeAttribute(a.name);\n                });\n            });\n            return div.innerHTML;\n        }\n\n        // Build month -> dateKey -> count map\n        const msgByDate = {};\n        const monthSet = new Set();\n        ALL.forEach(m => {\n            const p = parseTs(m.ts);\n            if (!msgByDate[p.dateKey]) msgByDate[p.dateKey] = 0;\n            msgByDate[p.dateKey]++;\n            monthSet.add(p.monthKey);\n        });\n        const allMonths = [...monthSet].sort().reverse();\n\n        // State\n        let selectedMonth = '';\n        let selectedDate = '';\n\n        // ── Calendar grid ──\n        const calGrid = document.getElementById('calendarGrid');\n        const weekdaysShort = ['Mon','Tue','Wed','Thu','Fri','Sat','Sun'];\n\n        function renderCalendar() {\n            calGrid.innerHTML = '';\n            // Weekday headers\n            weekdaysShort.forEach(w => {\n                const h = document.createElement('div');\n                h.className = 'cal-header';\n                h.textContent = w;\n                calGrid.appendChild(h);\n            });\n            if (!selectedMonth) return;\n\n            const [yr, mo] = selectedMonth.split('-').map(Number);\n            const firstDay = new Date(yr, mo - 1, 1);\n            const daysInMonth = new Date(yr, mo, 0).getDate();\n            // JS getDay: 0=Sun..6=Sat. We want Mon=0..Sun=6\n            let startCol = firstDay.getDay() - 1;\n            if (startCol < 0) startCol = 6;\n\n            // Empty cells before day 1\n            for (let i = 0; i < startCol; i++) {\n                const e = document.createElement('div');\n                e.className = 'cal-day empty';\n                calGrid.appendChild(e);\n            }\n\n            // Day cells\n            for (let day = 1; day <= daysInMonth; day++) {\n                const dateKey = selectedMonth + '-' + String(day).padStart(2,'0');\n                const cell = document.createElement('div');\n                cell.className = 'cal-day';\n                cell.textContent = day;\n                if (msgByDate[dateKey]) {\n                    cell.classList.add('has-msg');\n                    cell.title = msgByDate[dateKey] + ' messages';\n                    cell.dataset.date = dateKey;\n                    if (dateKey === selectedDate) cell.classList.add('selected');\n                    cell.addEventListener('click', () => {\n                        selectedDate = dateKey;\n                        document.querySelectorAll('.cal-day.selected').forEach(c => c.classList.remove('selected'));\n                        cell.classList.add('selected');\n                        renderMessages();\n                    });\n                }\n                calGrid.appendChild(cell);\n            }\n        }\n\n        // ── Render messages for selectedDate ──\n        function renderMessages() {\n            const container = document.getElementById('messagesContainer');\n            container.innerHTML = '';\n\n            if (!selectedDate) {\n                container.innerHTML = '<div class=\"empty\"><p>Select a highlighted day above</p></div>';\n                updateStats(0);\n                return;\n            }\n\n            const dayMsgs = ALL.filter(m => {\n                const p = parseTs(m.ts);\n                if (p.dateKey !== selectedDate) return false;\n                const q = document.getElementById('searchInput').value.toLowerCase().trim();\n                if (q && !m.content.toLowerCase().includes(q)) return false;\n                return true;\n            }).reverse(); // oldest first for display\n\n            if (dayMsgs.length === 0) {\n                const p = parseTs(selectedDate + 'T00:00:00');\n                container.innerHTML = '<div class=\"empty\"><p>No messages on ' + p.label + '</p></div>';\n                updateStats(0);\n                return;\n            }\n\n            const dateInfo = parseTs(dayMsgs[0].ts);\n            const sep = document.createElement('div');\n            sep.className = 'date-separator';\n            sep.innerHTML = '<span>' + dateInfo.label + '</span>';\n            container.appendChild(sep);\n\n            dayMsgs.forEach(msg => {\n                const p = parseTs(msg.ts);\n                const isUser = msg.role === 'user';\n                const row = document.createElement('div');\n                row.className = 'message-row ' + (isUser ? 'user' : 'assistant');\n                const avatarHtml = isUser ? '' : '<div class=\"avatar\">' + AVATAR_HTML + '</div>';\n                row.innerHTML = avatarHtml +\n                    '<div class=\"message ' + (isUser ? 'user' : 'assistant') + '\">' +\n                        '<div class=\"message-header\">' +\n                            '<span class=\"message-role\">' + (isUser ? 'You' : 'PA') + '</span>' +\n                            '<span class=\"message-time\">' + p.timeStr + '</span>' +\n                        '</div>' +\n                        '<div class=\"message-content\">' + sanitizeContent(msg.content) + '</div>' +\n                    '</div>';\n                container.appendChild(row);\n            });\n            updateStats(dayMsgs.length);\n        }\n\n        function updateStats(count) {\n            document.getElementById('statsBar').textContent =\n                selectedDate ? (selectedDate + ': ' + count + ' messages') : '';\n        }\n\n        // ── Month picker ──\n        const monthPicker = document.getElementById('monthPicker');\n        if (allMonths.length > 0) {\n            selectedMonth = allMonths[0]; // default to most recent month with messages\n            monthPicker.value = selectedMonth;\n            // Auto-select the most recent day with messages in this month\n            for (const m of ALL) {\n                const p = parseTs(m.ts);\n                if (p.monthKey === selectedMonth) {\n                    selectedDate = p.dateKey;\n                    break;\n                }\n            }\n        }\n        monthPicker.addEventListener('change', (e) => {\n            const v = e.target.value;\n            if (v) {\n                selectedMonth = v;\n                // Find the latest day with messages in this month\n                selectedDate = '';\n                for (const m of ALL) {\n                    const p = parseTs(m.ts);\n                    if (p.monthKey === v) {\n                        selectedDate = p.dateKey;\n                        break;\n                    }\n                }\n                renderCalendar();\n                renderMessages();\n            }\n        });\n\n        // ── Search ──\n        let searchTimer = null;\n        document.getElementById('searchInput').addEventListener('input', () => {\n            clearTimeout(searchTimer);\n            searchTimer = setTimeout(renderMessages, 200);\n        });\n\n        // Calendar collapse toggle\n        const calToggle = document.getElementById('calToggle');\n        const calWrap = document.getElementById('calWrap');\n        calToggle.addEventListener('click', () => {\n            if (calWrap.classList.contains('expanded')) {\n                calWrap.classList.remove('expanded');\n                calWrap.classList.add('collapsed');\n                calToggle.textContent = 'Date Picker ▼';\n            } else {\n                calWrap.classList.remove('collapsed');\n                calWrap.classList.add('expanded');\n                calToggle.textContent = 'Date Picker ▲';\n            }\n        });\n\n        // Initial render\n        renderCalendar();\n        renderMessages();\n    })();\n    </script>\n</body>\n</html>"@
}

/// The history page for `messages` (newest first) and the avatar.
pub fn generate_html(messages: &[ChatMessage], avatar_data_uri: &str) -> (r: String)
    ensures
        r@ == history_page(messages@, avatar_data_uri@),
{
    let mut out = chars_of("<!DOCTYPE html>\n<html lang=\"zh-CN\">\n<head>\n    <meta charset=\"UTF-8\">\n    <meta name=\"viewport\" content=\"width=device-width, initial-scale=1.0\">\n    <title>Pocket Agent - Chat History</title>\n    <style>\n        * { margin: 0; padding: 0; box-sizing: border-box; }\n        body {\n            font-family: -apple-system, BlinkMacSystemFont, 'Segoe UI', Roboto, sans-serif;\n            background: linear-gradient(135deg, #0a0a16 0%, #1a1a2e 100%);\n            color: #e8e8f0;\n            padding: 20px;\n            min-height: 100vh;\n        }\n        .container { max-width: 900px; margin: 0 auto; }\n\n        /* ── Header ── */\n        .header {\n            display: flex; justify-content: space-between; align-items: center;\n            margin-bottom: 24px; padding-bottom: 16px;\n            border-bottom: 1px solid rgba(160, 168, 255, 0.2);\n            position: sticky; top: 0; z-index: 100;\n            background: linear-gradient(135deg, #0a0a16 0%, #1a1a2e 100%);\n            padding-top: 4px;\n        }\n        .header h1 { font-size: 24px; font-weight: 600; }\n        .search-box { display: flex; gap: 10px; }\n        .search-box input {\n            padding: 8px 16px; border-radius: 8px;\n            border: 1px solid rgba(160, 168, 255, 0.3);\n            background: rgba(255, 255, 255, 0.05);\n            color: #e8e8f0; font-size: 14px; width: 250px;\n        }\n        .search-box input::placeholder { color: rgba(232, 232, 240, 0.4); }\n        .search-box input:focus {\n            outline: none; border-color: rgba(160, 168, 255, 0.6);\n            background: rgba(255, 255, 255, 0.08);\n        }\n\n        .month-picker {\n            padding: 7px 10px; border-radius: 8px;\n            border: 1px solid rgba(160, 168, 255, 0.3);\n            background: rgba(255, 255, 255, 0.05);\n            color: #e8e8f0; font-size: 13px;\n            cursor: pointer; color-scheme: dark;\n        }\n        .month-picker:focus {\n            outline: none; border-color: rgba(160, 168, 255, 0.6);\n        }\n        .month-picker::-webkit-calendar-picker-indicator {\n            filter: invert(0.8); cursor: pointer;\n        }\n\n        /* Calendar day grid */\n        .calendar-grid {\n            display: grid;\n            grid-template-columns: repeat(7, 1fr);\n            gap: 4px;\n            margin: 8px 0 4px;\n        }\n        .calendar-wrap {\n            overflow: hidden;\n            transition: max-height 0.2s ease;\n        }\n        .calendar-wrap.collapsed {\n            max-height: 0;\n        }\n        .calendar-wrap.expanded {\n            max-height: 300px;\n        }\n        .cal-toggle {\n            display: inline-flex; align-items: center; gap: 4px;\n            padding: 4px 12px; border-radius: 6px;\n            border: 1px solid rgba(160, 168, 255, 0.2);\n            background: rgba(160, 168, 255, 0.06);\n            color: rgba(160, 168, 255, 0.7);\n            font-size: 12px; cursor: pointer;\n            transition: background 0.12s;\n        }\n        .cal-toggle:hover {\n            background: rgba(160, 168, 255, 0.14);\n        }\n        .cal-header {\n            text-align: center; font-size: 11px; font-weight: 600;\n            color: rgba(160, 168, 255, 0.5);\n            padding: 4px 0;\n        }\n        .cal-day {\n            height: 28px;\n            display: flex; align-items: center; justify-content: center;\n            border-radius: 8px; font-size: 13px;\n            cursor: default; user-select: none;\n            background: rgba(255, 255, 255, 0.03);\n            color: rgba(232, 232, 240, 0.2);\n            border: 1px solid transparent;\n            transition: all 0.12s;\n        }\n        .cal-day.has-msg {\n            background: rgba(124, 158, 255, 0.15);\n            color: rgba(160, 168, 255, 0.9);\n            border-color: rgba(124, 158, 255, 0.3);\n            cursor: pointer; font-weight: 600;\n        }\n        .cal-day.has-msg:hover {\n            background: rgba(124, 158, 255, 0.3);\n            border-color: rgba(124, 158, 255, 0.5);\n        }\n        .cal-day.selected {\n            background: rgba(124, 158, 255, 0.4);\n            border-color: rgba(124, 158, 255, 0.8);\n        }\n        .cal-day.empty {\n            background: transparent; border: none;\n        }\n\n        /* ── Messages ── */\n        .messages { display: flex; flex-direction: column; gap: 14px; }\n\n        /* ── Date separator ── */\n        .date-separator {\n            display: flex; align-items: center; gap: 12px;\n            margin: 20px 0 8px; padding: 0 20px;\n        }\n        .date-separator::before, .date-separator::after {\n            content: ''; flex: 1; height: 1px;\n            background: rgba(160, 168, 255, 0.15);\n        }\n        .date-separator span {\n            font-size: 13px; font-weight: 500;\n            color: rgba(160, 168, 255, 0.7);\n            white-space: nowrap;\n        }\n\n        /* ── Message row with avatar ── */\n        .message-row {\n            display: flex; gap: 10px; align-items: flex-start;\n            animation: fadeIn 0.2s ease-out;\n        }\n        .message-row.user { flex-direction: row-reverse; }\n\n        .avatar {\n            width: 36px; height: 36px; border-radius: 50%;\n            flex-shrink: 0; overflow: hidden;\n            display: flex; align-items: center; justify-content: center;\n            background: rgba(160, 168, 255, 0.12);\n            border: 1px solid rgba(160, 168, 255, 0.2);\n            font-size: 18px;\n        }\n        .avatar img { width: 100%; height: 100%; object-fit: cover; }\n\n        .message {\n            flex: 1; max-width: 72%;\n            padding: 12px 16px; border-radius: 14px;\n            border: 1px solid rgba(160, 168, 255, 0.2);\n            background: rgba(10, 10, 22, 0.6);\n        }\n        .message.user {\n            background: rgba(124, 158, 255, 0.1);\n            border-color: rgba(124, 158, 255, 0.3);\n            margin-right: 80px;\n        }\n        .message.assistant {\n            background: rgba(160, 168, 255, 0.08);\n            border-color: rgba(160, 168, 255, 0.2);\n            margin-left: 80px;\n        }\n        /* Override: with avatar layout, margins create the offset */\n        .message-row.assistant .message { margin-left: 0; margin-right: 80px; }\n        .message-row.user .message { margin-right: 0; margin-left: 80px; }\n\n        .message-header {\n            display: flex; justify-content: space-between; align-items: center;\n            margin-bottom: 6px; font-size: 11px;\n        }\n        .message-role { font-weight: 600; color: rgba(160, 168, 255, 0.9); text-transform: uppercase; }\n        .message-time { color: rgba(232, 232, 240, 0.45); }\n\n        .message-content {\n            font-size: 14px; line-height: 1.6;\n            color: rgba(232, 232, 240, 0.92);\n            word-break: break-word; white-space: pre-wrap;\n        }\n        .message-content a { color: rgba(124, 158, 255, 0.9); text-decoration: underline; }\n        .message-content a:hover { color: rgba(160, 168, 255, 1); }\n\n        @keyframes fadeIn {\n            from { opacity: 0; transform: translateY(8px); }\n            to   { opacity: 1; transform: translateY(0); }\n        }\n\n        /* ── Load more ── */\n        .empty { text-align: center; padding: 60px 20px; color: rgba(232, 232, 240, 0.4); }\n        .empty-icon { font-size: 48px; margin-bottom: 16px; }\n\n        .stats {\n            margin-top: 24px; padding: 12px 16px; border-radius: 8px;\n            background: rgba(160, 168, 255, 0.06);\n            border: 1px solid rgba(160, 168, 255, 0.15);\n            font-size: 12px; color: rgba(232, 232, 240, 0.6);\n            text-align: center;\n        }\n    </style>\n</head>\n<body>\n    <div class=\"container\">\n        <div class=\"header\">\n            <h1>Chat History</h1>\n            <div class=\"search-box\">\n                <input type=\"month\" class=\"month-picker\" id=\"monthPicker\">\n                <input type=\"text\" id=\"searchInput\" placeholder=\"Search messages...\">\n            </div>\n        </div>\n        <span class=\"cal-toggle\" id=\"calToggle\">Date Picker ▲</span>\n        <div class=\"calendar-wrap expanded\" id=\"calWrap\">\n            <div class=\"calendar-grid\" id=\"calendarGrid\"></div>\n            <hr style=\"border:none;border-top:1px solid rgba(160,168,255,0.15);margin:4px 0 16px;\">\n        </div>\n        <div class=\"messages\" id=\"messagesContainer\"></div>\n        <div class=\"stats\" id=\"statsBar\"></div>\n    </div>\n    <script>\n    (function() {\n        const ALL = [");
    let ghost head = out@;
    let mut i: usize = 0;
    while i < messages.len()
        invariant
            i <= messages.len(),
            out@ == head + message_entries(messages@.take(i as int)),
        decreases messages.len() - i,
    {
        assert(messages@.take(i + 1).drop_last() =~= messages@.take(i as int));
        assert(messages@.take(i + 1).last() == messages@[i as int]);
        if i > 0 {
            append_chars(&mut out, &chars_of(","));
        }
        let m = &messages[i];
        append_chars(&mut out, &chars_of("{ts:'"));
        escape_into(&mut out, m.timestamp.as_str());
        append_chars(&mut out, &chars_of("',role:'"));
        escape_into(&mut out, m.role.as_str());
        append_chars(&mut out, &chars_of("',content:'"));
        escape_into(&mut out, m.content.as_str());
        append_chars(&mut out, &chars_of("'}"));
        proof {
            if i == 0 {
                assert(message_entries(messages@.take(1)) == message_entry(messages@[0]));
                assert(message_entries(messages@.take(0)) =~= Seq::<char>::empty());
            }
        }
        assert(out@ =~= head + message_entries(messages@.take(i + 1)));
        i += 1;
    }
    assert(messages@.take(messages.len() as int) =~= messages@);
    append_chars(&mut out, &chars_of("];\n        const AVATAR_HTML = `"));
    if avatar_data_uri.is_empty() {
        append_chars(&mut out, &chars_of("🤖"));
    } else {
        append_chars(&mut out, &chars_of("<img src=\""));
        append_chars(&mut out, &chars_of(avatar_data_uri));
        append_chars(&mut out, &chars_of("\" alt=\"avatar\">"));
    }
    append_chars(&mut out, &chars_of("`;\n\n        function parseTs(ts) {\n            const d = new Date(ts);\n            const dateKey = d.getFullYear() + '-' +\n                String(d.getMonth()+1).padStart(2,'0') + '-' +\n                String(d.getDate()).padStart(2,'0');\n            const timeStr = String(d.getHours()).padStart(2,'0') + ':' +\n                String(d.getMinutes()).padStart(2,'0');\n            const weekdays = ['Sun','Mon','Tue','Wed','Thu','Fri','Sat'];\n            const months = ['Jan','Feb','Mar','Apr','May','Jun','Jul','Aug','Sep','Oct','Nov','Dec'];\n            let label = weekdays[d.getDay()] + ', ' + months[d.getMonth()] + ' ' + d.getDate();\n            const today = new Date();\n            const tk = today.getFullYear() + '-' + String(today.getMonth()+1).padStart(2,'0') + '-' + String(today.getDate()).padStart(2,'0');\n            const ys = new Date(today); ys.setDate(ys.getDate()-1);\n            const yk = ys.getFullYear() + '-' + String(ys.getMonth()+1).padStart(2,'0') + '-' + String(ys.getDate()).padStart(2,'0');\n            if (dateKey === tk) label = 'Today';\n            else if (dateKey === yk) label = 'Yesterday';\n            return { dateKey, timeStr, label, day: d.getDate(), monthKey: d.getFullYear()+'-'+String(d.getMonth()+1).padStart(2,'0') };\n        }\n\n        function sanitizeContent(html) {\n            const div = document.createElement('div');\n            div.innerHTML = html;\n            div.querySelectorAll('script').forEach(el => el.remove());\n            div.querySelectorAll('*').forEach(el => {\n                Array.from(el.attributes).forEach(a => {\n                    if (a.name.startsWith('on')) el.removeAttribute(a.name);\n                });\n            });\n            return div.innerHTML;\n        }\n\n        // Build month -> dateKey -> count map\n        const msgByDate = {};\n        const monthSet = new Set();\n        ALL.forEach(m => {\n            const p = parseTs(m.ts);\n            if (!msgByDate[p.dateKey]) msgByDate[p.dateKey] = 0;\n            msgByDate[p.dateKey]++;\n            monthSet.add(p.monthKey);\n        });\n        const allMonths = [...monthSet].sort().reverse();\n\n        // State\n        let selectedMonth = '';\n        let selectedDate = '';\n\n        // ── Calendar grid ──\n        const calGrid = document.getElementById('calendarGrid');\n        const weekdaysShort = ['Mon','Tue','Wed','Thu','Fri','Sat','Sun'];\n\n        function renderCalendar() {\n            calGrid.innerHTML = '';\n            // Weekday headers\n            weekdaysShort.forEach(w => {\n                const h = document.createElement('div');\n                h.className = 'cal-header';\n                h.textContent = w;\n                calGrid.appendChild(h);\n            });\n            if (!selectedMonth) return;\n\n            const [yr, mo] = selectedMonth.split('-').map(Number);\n            const firstDay = new Date(yr, mo - 1, 1);\n            const daysInMonth = new Date(yr, mo, 0).getDate();\n            // JS getDay: 0=Sun..6=Sat. We want Mon=0..Sun=6\n            let startCol = firstDay.getDay() - 1;\n            if (startCol < 0) startCol = 6;\n\n            // Empty cells before day 1\n            for (let i = 0; i < startCol; i++) {\n                const e = document.createElement('div');\n                e.className = 'cal-day empty';\n                calGrid.appendChild(e);\n            }\n\n            // Day cells\n            for (let day = 1; day <= daysInMonth; day++) {\n                const dateKey = selectedMonth + '-' + String(day).padStart(2,'0');\n                const cell = document.createElement('div');\n                cell.className = 'cal-day';\n                cell.textContent = day;\n                if (msgByDate[dateKey]) {\n                    cell.classList.add('has-msg');\n                    cell.title = msgByDate[dateKey] + ' messages';\n                    cell.dataset.date = dateKey;\n                    if (dateKey === selectedDate) cell.classList.add('selected');\n                    cell.addEventListener('click', () => {\n                        selectedDate = dateKey;\n                        document.querySelectorAll('.cal-day.selected').forEach(c => c.classList.remove('selected'));\n                        cell.classList.add('selected');\n                        renderMessages();\n                    });\n                }\n                calGrid.appendChild(cell);\n            }\n        }\n\n        // ── Render messages for selectedDate ──\n        function renderMessages() {\n            const container = document.getElementById('messagesContainer');\n            container.innerHTML = '';\n\n            if (!selectedDate) {\n                container.innerHTML = '<div class=\"empty\"><p>Select a highlighted day above</p></div>';\n                updateStats(0);\n                return;\n            }\n\n            const dayMsgs = ALL.filter(m => {\n                const p = parseTs(m.ts);\n                if (p.dateKey !== selectedDate) return false;\n                const q = document.getElementById('searchInput').value.toLowerCase().trim();\n                if (q && !m.content.toLowerCase().includes(q)) return false;\n                return true;\n            }).reverse(); // oldest first for display\n\n            if (dayMsgs.length === 0) {\n                const p = parseTs(selectedDate + 'T00:00:00');\n                container.innerHTML = '<div class=\"empty\"><p>No messages on ' + p.label + '</p></div>';\n                updateStats(0);\n                return;\n            }\n\n            const dateInfo = parseTs(dayMsgs[0].ts);\n            const sep = document.createElement('div');\n            sep.className = 'date-separator';\n            sep.innerHTML = '<span>' + dateInfo.label + '</span>';\n            container.appendChild(sep);\n\n            dayMsgs.forEach(msg => {\n                const p = parseTs(msg.ts);\n                const isUser = msg.role === 'user';\n                const row = document.createElement('div');\n                row.className = 'message-row ' + (isUser ? 'user' : 'assistant');\n                const avatarHtml = isUser ? '' : '<div class=\"avatar\">' + AVATAR_HTML + '</div>';\n                row.innerHTML = avatarHtml +\n                    '<div class=\"message ' + (isUser ? 'user' : 'assistant') + '\">' +\n                        '<div class=\"message-header\">' +\n                            '<span class=\"message-role\">' + (isUser ? 'You' : 'PA') + '</span>' +\n                            '<span class=\"message-time\">' + p.timeStr + '</span>' +\n                        '</div>' +\n                        '<div class=\"message-content\">' + sanitizeContent(msg.content) + '</div>' +\n                    '</div>';\n                container.appendChild(row);\n            });\n            updateStats(dayMsgs.length);\n        }\n\n        function updateStats(count) {\n            document.getElementById('statsBar').textContent =\n                selectedDate ? (selectedDate + ': ' + count + ' messages') : '';\n        }\n\n        // ── Month picker ──\n        const monthPicker = document.getElementById('monthPicker');\n        if (allMonths.length > 0) {\n            selectedMonth = allMonths[0]; // default to most recent month with messages\n            monthPicker.value = selectedMonth;\n            // Auto-select the most recent day with messages in this month\n            for (const m of ALL) {\n                const p = parseTs(m.ts);\n                if (p.monthKey === selectedMonth) {\n                    selectedDate = p.dateKey;\n                    break;\n                }\n            }\n        }\n        monthPicker.addEventListener('change', (e) => {\n            const v = e.target.value;\n            if (v) {\n                selectedMonth = v;\n                // Find the latest day with messages in this month\n                selectedDate = '';\n                for (const m of ALL) {\n                    const p = parseTs(m.ts);\n                    if (p.monthKey === v) {\n                        selectedDate = p.dateKey;\n                        break;\n                    }\n                }\n                renderCalendar();\n                renderMessages();\n            }\n        });\n\n        // ── Search ──\n        let searchTimer = null;\n        document.getElementById('searchInput').addEventListener('input', () => {\n            clearTimeout(searchTimer);\n            searchTimer = setTimeout(renderMessages, 200);\n        });\n\n        // Calendar collapse toggle\n        const calToggle = document.getElementById('calToggle');\n        const calWrap = document.getElementById('calWrap');\n        calToggle.addEventListener('click', () => {\n            if (calWrap.classList.contains('expanded')) {\n                calWrap.classList.remove('expanded');\n                calWrap.classList.add('collapsed');\n                calToggle.textContent = 'Date Picker ▼';\n            } else {\n                calWrap.classList.remove('collapsed');\n                calWrap.classList.add('expanded');\n                calToggle.textContent = 'Date Picker ▲';\n            }\n        });\n\n        // Initial render\n        renderCalendar();\n        renderMessages();\n    })();\n    </script>\n</body>\n</html>"));
    string_of(&out)
}


/// How a script reads the body of a single-quoted string: `\\`, `\'`, `\n`
/// and `\r` stand for a backslash, a quote, a line feed and a carriage return;
/// any other character stands for itself. `None` where the string would end
/// early or break: a bare quote, a bare line break, a lone trailing
/// backslash, or an escape other than these four.
pub open spec fn js_unquote(e: Seq<char>) -> Option<Seq<char>>
    decreases e.len(),
{
    if e.len() == 0 {
        Some(Seq::empty())
    } else if e[0] == '\\' {
        if e.len() < 2 {
            None
        } else {
            let c = if e[1] == '\\' {
                Some('\\')
            } else if e[1] == '\'' {
                Some('\'')
            } else if e[1] == 'n' {
                Some('\n')
            } else if e[1] == 'r' {
                Some('\r')
            } else {
                None
            };
            match (c, js_unquote(e.skip(2))) {
                (Some(c), Some(rest)) => Some(seq![c] + rest),
                _ => None,
            }
        }
    } else if e[0] == '\'' || e[0] == '\n' || e[0] == '\r' {
        None
    } else {
        match js_unquote(e.skip(1)) {
            Some(rest) => Some(seq![e[0]] + rest),
            None => None,
        }
    }
}

proof fn lemma_escape_front(s: Seq<char>)
    requires
        s.len() > 0,
    ensures
        escape_js_spec(s) == js_escape_char(s[0]) + escape_js_spec(s.drop_first()),
    decreases s.len(),
{
    if s.len() == 1 {
        assert(escape_js_spec(s.drop_last()) == Seq::<char>::empty());
        assert(escape_js_spec(s.drop_first()) == Seq::<char>::empty());
        assert(s.last() == s[0]);
        assert(Seq::<char>::empty() + js_escape_char(s[0]) =~= js_escape_char(s[0]));
        assert(js_escape_char(s[0]) + Seq::<char>::empty() =~= js_escape_char(s[0]));
    } else {
        lemma_escape_front(s.drop_last());
        assert(s.drop_last().drop_first() =~= s.drop_first().drop_last());
        assert(s.drop_first().last() == s.last());
        assert(s.drop_last()[0] == s[0]);
        let a = js_escape_char(s[0]);
        let m = escape_js_spec(s.drop_first().drop_last());
        let z = js_escape_char(s.last());
        assert(escape_js_spec(s) == escape_js_spec(s.drop_last()) + z);
        assert(escape_js_spec(s.drop_first()) == m + z);
        assert((a + m) + z =~= a + (m + z));
    }
}

/// An escaped text, put between single quotes, reads back as exactly the
/// original text: nothing in it can end the quote or the line early.
pub proof fn law_escape_js_reads_back(s: Seq<char>)
    ensures
        js_unquote(escape_js_spec(s)) == Some(s),
    decreases s.len(),
{
    reveal_strlit("\\\\");
    reveal_strlit("\\'");
    reveal_strlit("\\n");
    reveal_strlit("\\r");
    if s.len() > 0 {
        lemma_escape_front(s);
        law_escape_js_reads_back(s.drop_first());
        let c = s[0];
        let rest = escape_js_spec(s.drop_first());
        let e = escape_js_spec(s);
        let k = js_escape_char(c).len() as int;
        assert(e.skip(k) =~= rest);
        assert(seq![c] + s.drop_first() =~= s);
    }
}

/// An escaped text stays on one line inside its quotes: it holds no line
/// feed and no carriage return.
pub proof fn law_escape_js_single_line(s: Seq<char>)
    ensures
        forall|i: int| 0 <= i < escape_js_spec(s).len() ==> escape_js_spec(s)[i] != '\n' && escape_js_spec(s)[i] != '\r',
    decreases s.len(),
{
    reveal_strlit("\\\\");
    reveal_strlit("\\'");
    reveal_strlit("\\n");
    reveal_strlit("\\r");
    if s.len() > 0 {
        law_escape_js_single_line(s.drop_last());
        let a = escape_js_spec(s.drop_last());
        let b = js_escape_char(s.last());
        assert forall|i: int| 0 <= i < (a + b).len() implies (a + b)[i] != '\n' && (a + b)[i] != '\r' by {
            if i >= a.len() {
                assert((a + b)[i] == b[i - a.len()]);
            }
        }
    }
}

} // verus!
